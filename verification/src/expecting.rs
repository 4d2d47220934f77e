//! The sentence that says which shapes were expected: `"a boolean"`,
//! `"a boolean or array"`, `"a boolean, integer or array"`.

use vstd::prelude::*;
use vstd::string::StringExecFns;

verus! {

/// A noun with the article that precedes it when it opens the sentence.
pub struct Phrase {
    pub article: Seq<char>,
    pub noun: Seq<char>,
}

/// The phrase that opens the sentence: the noun after its article, or the
/// noun alone where the article is empty.
pub open spec fn lead(phrase: Phrase) -> Seq<char> {
    if phrase.article.len() == 0 {
        phrase.noun
    } else {
        phrase.article + " "@ + phrase.noun
    }
}

/// The nouns of `phrases`, each after a comma and a space.
pub open spec fn listed(phrases: Seq<Phrase>) -> Seq<char>
    decreases phrases.len(),
{
    if phrases.len() == 0 {
        Seq::empty()
    } else {
        listed(phrases.drop_last()) + ", "@ + phrases.last().noun
    }
}

/// The sentence for `phrases`: the first with its article, the others as
/// plain nouns after commas, the last after `or`; `unspecified` for none.
pub open spec fn message(phrases: Seq<Phrase>) -> Seq<char> {
    if phrases.len() == 0 {
        "unspecified"@
    } else if phrases.len() == 1 {
        lead(phrases[0])
    } else {
        lead(phrases[0]) + listed(phrases.subrange(1, phrases.len() - 1)) + " or "@
            + phrases.last().noun
    }
}

/// Builds the sentence one phrase at a time, holding the latest noun back
/// until it is known whether another follows.
pub struct Expecting<'e> {
    out: String,
    count: usize,
    last: Option<&'e str>,
    pushed: Ghost<Seq<Phrase>>,
}

impl<'e> Expecting<'e> {
    /// The phrases pushed so far, in order.
    pub closed spec fn phrases(&self) -> Seq<Phrase> {
        self.pushed@
    }

    /// What has been written and what is held back agree with the phrases
    /// pushed so far.
    pub closed spec fn wf(&self) -> bool {
        let phrases = self.pushed@;
        &&& self.count == phrases.len()
        &&& phrases.len() == 0 ==> self.out@ == Seq::<char>::empty() && self.last.is_none()
        &&& phrases.len() == 1 ==> self.out@ == lead(phrases[0]) && self.last.is_none()
        &&& phrases.len() >= 2 ==> {
            &&& self.out@ == lead(phrases[0]) + listed(phrases.subrange(1, phrases.len() - 1))
            &&& self.last matches Some(noun)
            &&& noun@ == phrases.last().noun
        }
    }

    /// A sentence with no phrase yet.
    pub fn new() -> (expecting: Self)
        ensures
            expecting.wf(),
            expecting.phrases() == Seq::<Phrase>::empty(),
    {
        Expecting { out: String::new(), count: 0, last: None, pushed: Ghost(Seq::empty()) }
    }

    /// Adds the phrase made of `article` and `item` to the end of the list.
    pub fn push(&mut self, article: &str, item: &'e str)
        requires
            old(self).wf(),
            old(self).phrases().len() < usize::MAX,
        ensures
            final(self).wf(),
            final(self).phrases() == old(self).phrases().push(
                Phrase { article: article@, noun: item@ },
            ),
    {
        let ghost before = self.pushed@;
        let ghost after = before.push(Phrase { article: article@, noun: item@ });
        self.count += 1;
        if self.count == 1 {
            if !article.is_empty() {
                self.out.append(article);
                self.out.append(" ");
            }
            self.out.append(item);
            proof {
                assert(after[0] == Phrase { article: article@, noun: item@ });
                assert(self.out@ =~= lead(after[0]));
            }
        } else {
            if let Some(last) = self.last.take() {
                self.out.append(", ");
                self.out.append(last);
            }
            self.last = Some(item);
            proof {
                let middle = after.subrange(1, after.len() - 1);
                assert(after[0] == before[0]);
                assert(after.last().noun == item@);
                if before.len() >= 2 {
                    assert(middle.drop_last() =~= before.subrange(1, before.len() - 1));
                    assert(middle.last() == before.last());
                    assert(self.out@ =~= lead(after[0]) + listed(middle));
                } else {
                    assert(middle =~= Seq::<Phrase>::empty());
                    assert(self.out@ =~= lead(after[0]) + listed(middle));
                }
            }
        }
        self.pushed = Ghost(after);
    }

    /// Ends the sentence and hands it out.
    pub fn flush(self) -> (text: String)
        requires
            self.wf(),
        ensures
            text@ == message(self.phrases()),
    {
        let mut out = self.out;
        if self.count == 0 {
            out.append("unspecified");
        } else if let Some(last) = self.last {
            out.append(" or ");
            out.append(last);
        }
        out
    }
}

} // verus!
