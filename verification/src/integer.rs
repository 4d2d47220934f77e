//! Integers as a decoder reports them, the ten widths a handler can ask for,
//! and the order in which the widths are tried.

use vstd::prelude::*;

verus! {

/// One of the ten integer widths.
#[derive(Clone, Copy, Debug, PartialEq, Eq, Structural)]
pub enum IntKind {
    I8,
    I16,
    I32,
    I64,
    I128,
    U8,
    U16,
    U32,
    U64,
    U128,
}

impl IntKind {
    /// The least number that the width holds.
    pub open spec fn min(self) -> int {
        match self {
            IntKind::I8 => -0x80,
            IntKind::I16 => -0x8000,
            IntKind::I32 => -0x8000_0000,
            IntKind::I64 => -0x8000_0000_0000_0000,
            IntKind::I128 => -0x8000_0000_0000_0000_0000_0000_0000_0000,
            _ => 0,
        }
    }

    /// The greatest number that the width holds.
    pub open spec fn max(self) -> int {
        match self {
            IntKind::I8 => 0x7f,
            IntKind::I16 => 0x7fff,
            IntKind::I32 => 0x7fff_ffff,
            IntKind::I64 => 0x7fff_ffff_ffff_ffff,
            IntKind::I128 => 0x7fff_ffff_ffff_ffff_ffff_ffff_ffff_ffff,
            IntKind::U8 => 0xff,
            IntKind::U16 => 0xffff,
            IntKind::U32 => 0xffff_ffff,
            IntKind::U64 => 0xffff_ffff_ffff_ffff,
            IntKind::U128 => 0xffff_ffff_ffff_ffff_ffff_ffff_ffff_ffff,
        }
    }

    /// Whether the width represents `value` without loss.
    pub open spec fn holds(self, value: int) -> bool {
        self.min() <= value <= self.max()
    }

    /// Whether the width is one of the five signed ones.
    pub open spec fn signed(self) -> bool {
        self.min() < 0
    }

    /// The number of bits of the width.
    pub open spec fn bits(self) -> int {
        match self {
            IntKind::I8 | IntKind::U8 => 8,
            IntKind::I16 | IntKind::U16 => 16,
            IntKind::I32 | IntKind::U32 => 32,
            IntKind::I64 | IntKind::U64 => 64,
            IntKind::I128 | IntKind::U128 => 128,
        }
    }

    /// How late the width is tried for an integer reported at width
    /// `reported`: the reported width itself first, then the wider widths of
    /// its signedness, then the narrower ones, then the widths of the other
    /// signedness, each group from narrow to wide.
    pub open spec fn rank(self, reported: IntKind) -> int {
        if self.signed() != reported.signed() {
            2000 + self.bits()
        } else if self.bits() < reported.bits() {
            1000 + self.bits()
        } else {
            self.bits()
        }
    }

    /// The order in which the widths are tried for an integer that the decoder
    /// reports at width `self`: the reported width, then the wider ones of the
    /// same signedness, then the narrower ones of the same signedness, then
    /// those of the other signedness from narrow to wide.
    pub open spec fn precedence(self) -> Seq<IntKind> {
        match self {
            IntKind::I8 => seq![
                IntKind::I8, IntKind::I16, IntKind::I32, IntKind::I64, IntKind::I128,
                IntKind::U8, IntKind::U16, IntKind::U32, IntKind::U64, IntKind::U128,
            ],
            IntKind::I16 => seq![
                IntKind::I16, IntKind::I32, IntKind::I64, IntKind::I128, IntKind::I8,
                IntKind::U8, IntKind::U16, IntKind::U32, IntKind::U64, IntKind::U128,
            ],
            IntKind::I32 => seq![
                IntKind::I32, IntKind::I64, IntKind::I128, IntKind::I8, IntKind::I16,
                IntKind::U8, IntKind::U16, IntKind::U32, IntKind::U64, IntKind::U128,
            ],
            IntKind::I64 => seq![
                IntKind::I64, IntKind::I128, IntKind::I8, IntKind::I16, IntKind::I32,
                IntKind::U8, IntKind::U16, IntKind::U32, IntKind::U64, IntKind::U128,
            ],
            IntKind::I128 => seq![
                IntKind::I128, IntKind::I8, IntKind::I16, IntKind::I32, IntKind::I64,
                IntKind::U8, IntKind::U16, IntKind::U32, IntKind::U64, IntKind::U128,
            ],
            IntKind::U8 => seq![
                IntKind::U8, IntKind::U16, IntKind::U32, IntKind::U64, IntKind::U128,
                IntKind::I8, IntKind::I16, IntKind::I32, IntKind::I64, IntKind::I128,
            ],
            IntKind::U16 => seq![
                IntKind::U16, IntKind::U32, IntKind::U64, IntKind::U128, IntKind::U8,
                IntKind::I8, IntKind::I16, IntKind::I32, IntKind::I64, IntKind::I128,
            ],
            IntKind::U32 => seq![
                IntKind::U32, IntKind::U64, IntKind::U128, IntKind::U8, IntKind::U16,
                IntKind::I8, IntKind::I16, IntKind::I32, IntKind::I64, IntKind::I128,
            ],
            IntKind::U64 => seq![
                IntKind::U64, IntKind::U128, IntKind::U8, IntKind::U16, IntKind::U32,
                IntKind::I8, IntKind::I16, IntKind::I32, IntKind::I64, IntKind::I128,
            ],
            IntKind::U128 => seq![
                IntKind::U128, IntKind::U8, IntKind::U16, IntKind::U32, IntKind::U64,
                IntKind::I8, IntKind::I16, IntKind::I32, IntKind::I64, IntKind::I128,
            ],
        }
    }
}

/// An integer of any of the ten widths: every number from the least `i128`
/// to the greatest `u128`.
#[derive(Clone, Copy, Debug)]
pub enum Integer {
    Signed(i128),
    Unsigned(u128),
}

impl Integer {
    /// The number itself.
    pub open spec fn value(self) -> int {
        match self {
            Integer::Signed(v) => v as int,
            Integer::Unsigned(v) => v as int,
        }
    }
}

/// A width into which an [`Integer`] converts when the width holds it.
pub trait IntFrom: Sized {
    /// The width that the type is.
    spec fn kind() -> IntKind;

    /// The number that a value of the type is.
    spec fn number(self) -> int;

    /// `value` at this width, or `None` where the width does not hold it.
    fn int_from(value: Integer) -> (r: Option<Self>)
        ensures
            r.is_some() <==> Self::kind().holds(value.value()),
            r matches Some(v) ==> v.number() == value.value(),
    ;
}

impl IntFrom for i8 {
    open spec fn kind() -> IntKind {
        IntKind::I8
    }

    open spec fn number(self) -> int {
        self as int
    }

    fn int_from(value: Integer) -> (r: Option<i8>) {
        match value {
            Integer::Signed(v) => if -0x80 <= v && v <= 0x7f {
                Some(v as i8)
            } else {
                None
            },
            Integer::Unsigned(v) => if v <= 0x7f {
                Some(v as i8)
            } else {
                None
            },
        }
    }
}

impl IntFrom for i16 {
    open spec fn kind() -> IntKind {
        IntKind::I16
    }

    open spec fn number(self) -> int {
        self as int
    }

    fn int_from(value: Integer) -> (r: Option<i16>) {
        match value {
            Integer::Signed(v) => if -0x8000 <= v && v <= 0x7fff {
                Some(v as i16)
            } else {
                None
            },
            Integer::Unsigned(v) => if v <= 0x7fff {
                Some(v as i16)
            } else {
                None
            },
        }
    }
}

impl IntFrom for i32 {
    open spec fn kind() -> IntKind {
        IntKind::I32
    }

    open spec fn number(self) -> int {
        self as int
    }

    fn int_from(value: Integer) -> (r: Option<i32>) {
        match value {
            Integer::Signed(v) => if -0x8000_0000 <= v && v <= 0x7fff_ffff {
                Some(v as i32)
            } else {
                None
            },
            Integer::Unsigned(v) => if v <= 0x7fff_ffff {
                Some(v as i32)
            } else {
                None
            },
        }
    }
}

impl IntFrom for i64 {
    open spec fn kind() -> IntKind {
        IntKind::I64
    }

    open spec fn number(self) -> int {
        self as int
    }

    fn int_from(value: Integer) -> (r: Option<i64>) {
        match value {
            Integer::Signed(v) => if -0x8000_0000_0000_0000 <= v && v <= 0x7fff_ffff_ffff_ffff {
                Some(v as i64)
            } else {
                None
            },
            Integer::Unsigned(v) => if v <= 0x7fff_ffff_ffff_ffff {
                Some(v as i64)
            } else {
                None
            },
        }
    }
}

impl IntFrom for i128 {
    open spec fn kind() -> IntKind {
        IntKind::I128
    }

    open spec fn number(self) -> int {
        self as int
    }

    fn int_from(value: Integer) -> (r: Option<i128>) {
        match value {
            Integer::Signed(v) => Some(v),
            Integer::Unsigned(v) => if v <= 0x7fff_ffff_ffff_ffff_ffff_ffff_ffff_ffff {
                Some(v as i128)
            } else {
                None
            },
        }
    }
}

impl IntFrom for u8 {
    open spec fn kind() -> IntKind {
        IntKind::U8
    }

    open spec fn number(self) -> int {
        self as int
    }

    fn int_from(value: Integer) -> (r: Option<u8>) {
        match value {
            Integer::Signed(v) => if 0 <= v && v <= 0xff {
                Some(v as u8)
            } else {
                None
            },
            Integer::Unsigned(v) => if v <= 0xff {
                Some(v as u8)
            } else {
                None
            },
        }
    }
}

impl IntFrom for u16 {
    open spec fn kind() -> IntKind {
        IntKind::U16
    }

    open spec fn number(self) -> int {
        self as int
    }

    fn int_from(value: Integer) -> (r: Option<u16>) {
        match value {
            Integer::Signed(v) => if 0 <= v && v <= 0xffff {
                Some(v as u16)
            } else {
                None
            },
            Integer::Unsigned(v) => if v <= 0xffff {
                Some(v as u16)
            } else {
                None
            },
        }
    }
}

impl IntFrom for u32 {
    open spec fn kind() -> IntKind {
        IntKind::U32
    }

    open spec fn number(self) -> int {
        self as int
    }

    fn int_from(value: Integer) -> (r: Option<u32>) {
        match value {
            Integer::Signed(v) => if 0 <= v && v <= 0xffff_ffff {
                Some(v as u32)
            } else {
                None
            },
            Integer::Unsigned(v) => if v <= 0xffff_ffff {
                Some(v as u32)
            } else {
                None
            },
        }
    }
}

impl IntFrom for u64 {
    open spec fn kind() -> IntKind {
        IntKind::U64
    }

    open spec fn number(self) -> int {
        self as int
    }

    fn int_from(value: Integer) -> (r: Option<u64>) {
        match value {
            Integer::Signed(v) => if 0 <= v && v <= 0xffff_ffff_ffff_ffff {
                Some(v as u64)
            } else {
                None
            },
            Integer::Unsigned(v) => if v <= 0xffff_ffff_ffff_ffff {
                Some(v as u64)
            } else {
                None
            },
        }
    }
}

impl IntFrom for u128 {
    open spec fn kind() -> IntKind {
        IntKind::U128
    }

    open spec fn number(self) -> int {
        self as int
    }

    fn int_from(value: Integer) -> (r: Option<u128>) {
        match value {
            Integer::Signed(v) => if 0 <= v {
                Some(v as u128)
            } else {
                None
            },
            Integer::Unsigned(v) => Some(v),
        }
    }
}

/// Whether the width at place `i` of `precedence` both holds `value` and is
/// registered.
pub open spec fn eligible(
    precedence: Seq<IntKind>,
    value: int,
    registered: Set<IntKind>,
    i: int,
) -> bool {
    0 <= i < precedence.len() && precedence[i].holds(value) && registered.contains(precedence[i])
}

/// The width that handles `value`: the first in `precedence` that both holds
/// the value and is registered, or `None` where there is no such width.
pub open spec fn first_match(
    precedence: Seq<IntKind>,
    value: int,
    registered: Set<IntKind>,
) -> Option<IntKind>
    decreases precedence.len(),
{
    if precedence.len() == 0 {
        None
    } else if precedence[0].holds(value) && registered.contains(precedence[0]) {
        Some(precedence[0])
    } else {
        first_match(precedence.drop_first(), value, registered)
    }
}

/// The choice is greedy: the chosen width stands at the first eligible place
/// of the order, and no width is chosen exactly when no place is eligible.
pub proof fn lemma_first_match_is_first(
    precedence: Seq<IntKind>,
    value: int,
    registered: Set<IntKind>,
)
    ensures
        match first_match(precedence, value, registered) {
            Some(kind) => exists|i: int|
                {
                    &&& #[trigger] eligible(precedence, value, registered, i)
                    &&& precedence[i] == kind
                    &&& forall|j: int| 0 <= j < i ==> !eligible(precedence, value, registered, j)
                },
            None => forall|i: int| !eligible(precedence, value, registered, i),
        },
    decreases precedence.len(),
{
    if precedence.len() == 0 {
    } else if precedence[0].holds(value) && registered.contains(precedence[0]) {
        assert(eligible(precedence, value, registered, 0));
    } else {
        let rest = precedence.drop_first();
        lemma_first_match_is_first(rest, value, registered);
        assert forall|i: int|
            eligible(precedence, value, registered, i) == eligible(
                rest,
                value,
                registered,
                i - 1,
            ) by {
            if 0 < i < precedence.len() {
                assert(rest[i - 1] == precedence[i]);
            }
        }
        match first_match(rest, value, registered) {
            Some(kind) => {
                let i = choose|i: int|
                    {
                        &&& #[trigger] eligible(rest, value, registered, i)
                        &&& rest[i] == kind
                        &&& forall|j: int| 0 <= j < i ==> !eligible(rest, value, registered, j)
                    };
                assert(eligible(precedence, value, registered, i + 1));
                assert(precedence[i + 1] == kind);
                assert forall|j: int| 0 <= j < i + 1 implies !eligible(
                    precedence,
                    value,
                    registered,
                    j,
                ) by {
                    if j > 0 {
                        assert(!eligible(rest, value, registered, j - 1));
                    }
                }
            },
            None => {
                assert forall|i: int| !eligible(precedence, value, registered, i) by {
                    assert(!eligible(rest, value, registered, i - 1));
                }
            },
        }
    }
}

/// Exactness beats breadth: an integer reported at a width whose handler is
/// registered goes to that handler, whatever else is registered.
pub proof fn lemma_exact_width_wins(reported: IntKind, value: int, registered: Set<IntKind>)
    requires
        reported.holds(value),
        registered.contains(reported),
    ensures
        first_match(reported.precedence(), value, registered) == Some(reported),
{
    assert(reported.precedence()[0] == reported);
}

/// Every order of trial goes from the reported width to the wider widths of
/// its signedness, then to the narrower ones, then to the widths of the other
/// signedness, each group from narrow to wide.
pub proof fn lemma_precedence_is_ranked(reported: IntKind, i: int, j: int)
    requires
        0 <= i < j < 10,
    ensures
        reported.precedence()[i].rank(reported) < reported.precedence()[j].rank(reported),
{
}

/// Every order of trial lists each of the ten widths exactly once and starts
/// with the reported width.
pub proof fn lemma_precedence_is_permutation(reported: IntKind, kind: IntKind)
    ensures
        reported.precedence().len() == 10,
        reported.precedence()[0] == reported,
        exists|i: int|
            0 <= i < 10 && #[trigger] reported.precedence()[i] == kind && forall|j: int|
                0 <= j < 10 && reported.precedence()[j] == kind ==> j == i,
{
    let p = reported.precedence();
    let i: int = if p[0] == kind {
        0
    } else if p[1] == kind {
        1
    } else if p[2] == kind {
        2
    } else if p[3] == kind {
        3
    } else if p[4] == kind {
        4
    } else if p[5] == kind {
        5
    } else if p[6] == kind {
        6
    } else if p[7] == kind {
        7
    } else if p[8] == kind {
        8
    } else {
        9
    };
    assert(p[i] == kind);
    assert(forall|j: int| 0 <= j < 10 && p[j] == kind ==> j == i);
}

} // verus!
