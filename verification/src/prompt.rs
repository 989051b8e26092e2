use vstd::prelude::*;

use crate::error::MadmError;
use crate::text::texts;

verus! {

/// How madm asks the user: whether anyone can answer, and the answer to
/// one prompt.
pub trait Interaction {
    fn is_interactive(&self) -> bool;

    fn prompt(&mut self, message: &str) -> Result<String, MadmError>;
}

/// The texts of a list of string slices.
pub open spec fn str_texts(v: Seq<&str>) -> Seq<Seq<char>> {
    v.map_values(|s: &str| s@)
}

/// An interaction with prepared answers that records every prompt.
pub struct FakeInteraction {
    pub interactive: bool,
    pub responses: Vec<String>,
    pub prompts: Vec<String>,
}

pub open spec fn no_response_message() -> Seq<char> {
    "test prompt had no prepared response"@
}

impl FakeInteraction {
    /// An interactive user who answers with `responses`, in order.
    pub fn interactive(responses: &[&str]) -> (res: Self)
        ensures
            res.interactive,
            texts(res.responses@) == str_texts(responses@),
            res.prompts@.len() == 0,
    {
        let mut answers: Vec<String> = Vec::new();
        let mut i: usize = 0;
        while i < responses.len()
            invariant
                i <= responses@.len(),
                texts(answers@) == str_texts(responses@.take(i as int)),
            decreases responses@.len() - i,
        {
            let ghost before = answers@;
            answers.push(String::from_str(responses[i]));
            assert(texts(answers@) =~= texts(before).push(responses@[i as int]@));
            assert(str_texts(responses@.take(i + 1)) =~= str_texts(responses@.take(i as int)).push(
                responses@[i as int]@,
            ));
            i = i + 1;
        }
        assert(responses@.take(responses@.len() as int) =~= responses@);
        FakeInteraction { interactive: true, responses: answers, prompts: Vec::new() }
    }
}

impl Interaction for FakeInteraction {
    fn is_interactive(&self) -> (res: bool)
        ensures
            res == self.interactive,
    {
        self.interactive
    }

    /// Records the prompt and hands out the next prepared answer.
    fn prompt(&mut self, message: &str) -> (res: Result<String, MadmError>)
        ensures
            texts(final(self).prompts@) == texts(old(self).prompts@).push(message@),
            final(self).interactive == old(self).interactive,
            old(self).responses@.len() > 0 ==> {
                &&& res matches Ok(a) && a@ == old(self).responses@[0]@
                &&& texts(final(self).responses@) == texts(old(self).responses@.drop_first())
            },
            old(self).responses@.len() == 0 ==> {
                &&& res matches Err(e) && e.text() == no_response_message() && e.exit_code() == 1
                &&& final(self).responses@.len() == 0
            },
    {
        let ghost before = self.prompts@;
        self.prompts.push(String::from_str(message));
        assert(texts(self.prompts@) =~= texts(before).push(message@));
        if self.responses.len() == 0 {
            Err(MadmError::new(String::from_str("test prompt had no prepared response")))
        } else {
            let ghost rest = self.responses@.drop_first();
            let answer = self.responses.remove(0);
            assert(self.responses@ =~= rest);
            Ok(answer)
        }
    }
}

} // verus!
