//! Dialogue turns: one message of a conversation, from the user or from the
//! assistant, with non-blank text.

use vstd::prelude::*;
use vstd::string::StrSliceExecFns;
use crate::errors::CoreError;

verus! {

/// Who spoke a turn.
#[derive(Clone, Copy, PartialEq, Eq, Structural, Debug)]
pub enum Role {
    User,
    Assistant,
}

/// The whitespace characters that the library strips conceptually: text made
/// only of these counts as empty.
pub open spec fn is_space_char(c: char) -> bool {
    c == ' ' || c == '\t' || c == '\n' || c == '\r'
}

/// Text is blank when every character is whitespace; in particular the empty
/// text is blank. A blank message carries no content and is rejected.
pub open spec fn is_blank(s: Seq<char>) -> bool {
    forall|i: int| 0 <= i < s.len() ==> is_space_char(s[i])
}

/// Decides [`is_blank`] on a string.
pub fn text_is_blank(s: &str) -> (r: bool)
    ensures
        r == is_blank(s@),
{
    let n = s.unicode_len();
    let mut i: usize = 0;
    while i < n
        invariant
            i <= n,
            n == s@.len(),
            forall|j: int| 0 <= j < i ==> is_space_char(s@[j]),
        decreases n - i,
    {
        let c = s.get_char(i);
        if !(c == ' ' || c == '\t' || c == '\n' || c == '\r') {
            return false;
        }
        i = i + 1;
    }
    true
}

/// The mathematical value of a [`Turn`]: its role and its text.
#[verifier::ext_equal]
pub ghost struct TurnView {
    pub role: Role,
    pub text: Seq<char>,
}

impl TurnView {
    /// A well-formed turn holds non-blank text.
    pub open spec fn wf(self) -> bool {
        !is_blank(self.text)
    }
}

/// One exchange unit of a conversation. Immutable once created; the
/// constructor rejects blank text, so a turn always carries content.
#[derive(Debug)]
pub struct Turn {
    role: Role,
    text: String,
}

impl View for Turn {
    type V = TurnView;

    closed spec fn view(&self) -> TurnView {
        TurnView { role: self.role, text: self.text@ }
    }
}

impl Clone for Turn {
    fn clone(&self) -> (r: Self)
        ensures
            r@ == self@,
    {
        Turn { role: self.role, text: self.text.clone() }
    }
}

impl Turn {
    /// Builds a turn, rejecting blank text.
    pub fn new(role: Role, text: String) -> (r: Result<Turn, CoreError>)
        ensures
            is_blank(text@) <==> r is Err,
            r is Err ==> r == Result::<Turn, CoreError>::Err(CoreError::Validation),
            r matches Ok(t) ==> t@ == (TurnView { role: role, text: text@ }) && t@.wf(),
    {
        if text_is_blank(text.as_str()) {
            Err(CoreError::Validation)
        } else {
            Ok(Turn { role, text })
        }
    }

    /// Who spoke this turn.
    pub fn role(&self) -> (r: Role)
        ensures
            r == self@.role,
    {
        self.role
    }

    /// What was said.
    pub fn text(&self) -> (r: &String)
        ensures
            r@ == self@.text,
    {
        &self.text
    }
}

} // verus!
