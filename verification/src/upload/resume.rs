//! The checkpoint from which an interrupted upload continues, and its text form.

use crate::decimal::{
    decimal_digits, decimal_text, digits_number, is_digit, lemma_decimal_digits, parse_digits,
};
use vstd::prelude::*;
use vstd::string::*;

verus! {

/// What is needed to continue an interrupted upload: the offset below which
/// the remote holds every byte, and the remote session.
#[derive(Debug, Clone)]
pub struct Resume {
    pub start_offset: u64,
    pub session_id: String,
}

/// Why a text is no checkpoint.
#[derive(Debug, Clone, Copy, PartialEq, Eq, Structural)]
pub enum ResumeParseError {
    /// The text holds no comma, so no offset follows a session id.
    MissingOffset,
    /// What follows the last comma is no offset.
    InvalidOffset,
}

/// The digits of an offset's text: the text without one leading plus sign.
pub open spec fn offset_digits(s: Seq<char>) -> Seq<char> {
    if s.len() > 0 && s[0] == '+' {
        s.skip(1)
    } else {
        s
    }
}

/// The offset that a text writes: decimal digits, at least one, after at most
/// one plus sign, with a value that an offset can hold.
pub open spec fn parse_offset(s: Seq<char>) -> Option<u64> {
    digits_number(offset_digits(s))
}

/// The position `i` holds the last comma of the text.
pub open spec fn is_last_comma(s: Seq<char>, i: int) -> bool {
    &&& 0 <= i < s.len()
    &&& s[i] == ','
    &&& forall|j: int| i < j < s.len() ==> #[trigger] s[j] != ','
}

/// The text holds no comma.
pub open spec fn has_no_comma(s: Seq<char>) -> bool {
    forall|j: int| 0 <= j < s.len() ==> #[trigger] s[j] != ','
}

/// The text reads as the checkpoint `(id, offset)`: the session id is what
/// stands before the last comma, the offset what stands behind it.
pub open spec fn reads_as(s: Seq<char>, id: Seq<char>, offset: u64) -> bool {
    exists|i: int|
        #![trigger is_last_comma(s, i)]
        is_last_comma(s, i) && id == s.subrange(0, i) && parse_offset(s.subrange(i + 1, s.len() as int))
            == Some(offset)
}

/// The text has a last comma, and what follows it is no offset.
pub open spec fn has_bad_offset(s: Seq<char>) -> bool {
    exists|i: int|
        #![trigger is_last_comma(s, i)]
        is_last_comma(s, i) && parse_offset(s.subrange(i + 1, s.len() as int)) is None
}

/// Scans the text from its end for the last comma.
fn find_last_comma(s: &str) -> (r: Option<usize>)
    ensures
        match r {
            Some(i) => is_last_comma(s@, i as int),
            None => has_no_comma(s@),
        },
{
    let n = s.unicode_len();
    let mut i: usize = n;
    while i > 0
        invariant
            i <= n,
            n == s@.len(),
            forall|j: int| i <= j < n ==> #[trigger] s@[j] != ',',
        decreases i,
    {
        i = i - 1;
        if s.get_char(i) == ',' {
            return Some(i);
        }
    }
    None
}

/// Reads an offset as `u64`'s own parser does: decimal digits after at most one plus sign.
pub fn parse_offset_text(s: &str) -> (r: Option<u64>)
    ensures
        r == parse_offset(s@),
{
    let n = s.unicode_len();
    if n > 0 && s.get_char(0) == '+' {
        assert(offset_digits(s@) =~= s@.skip(1));
        parse_digits(s, 1)
    } else {
        assert(offset_digits(s@) =~= s@.skip(0));
        parse_digits(s, 0)
    }
}

/// Writes an offset in decimal digits.
pub fn offset_text(n: u64) -> (r: String)
    ensures
        r@ == decimal_digits(n as nat),
{
    decimal_text(n)
}

impl Resume {
    /// Reads a checkpoint from `"{session_id},{start_offset}"`. The text is
    /// split at its last comma, so a session id may itself hold commas.
    pub fn from_str(s: &str) -> (r: Result<Resume, ResumeParseError>)
        ensures
            match r {
                Ok(resume) => reads_as(s@, resume.session_id@, resume.start_offset),
                Err(ResumeParseError::MissingOffset) => has_no_comma(s@),
                Err(ResumeParseError::InvalidOffset) => has_bad_offset(s@),
            },
    {
        match find_last_comma(s) {
            None => Err(ResumeParseError::MissingOffset),
            Some(i) => {
                let n = s.unicode_len();
                let offset_text = s.substring_char(i + 1, n);
                match parse_offset_text(offset_text) {
                    None => Err(ResumeParseError::InvalidOffset),
                    Some(start_offset) => {
                        let session_id = String::from_str(s.substring_char(0, i));
                        Ok(Resume { start_offset, session_id })
                    },
                }
            },
        }
    }
}

/// The text of the checkpoint `(id, offset)`: the session id, a comma, the offset.
pub open spec fn resume_text(id: Seq<char>, offset: u64) -> Seq<char> {
    id + seq![','] + decimal_digits(offset as nat)
}

impl std::str::FromStr for Resume {
    type Err = ResumeParseError;

    /// Reads a checkpoint from `"{session_id},{start_offset}"`, split at its
    /// last comma, as the function of the same name on the type does.
    fn from_str(s: &str) -> (r: Result<Resume, ResumeParseError>)
        ensures
            match r {
                Ok(resume) => reads_as(s@, resume.session_id@, resume.start_offset),
                Err(ResumeParseError::MissingOffset) => has_no_comma(s@),
                Err(ResumeParseError::InvalidOffset) => has_bad_offset(s@),
            },
    {
        Resume::from_str(s)
    }
}

/// Round trip: the text of a checkpoint reads as that checkpoint, whatever
/// the session id holds, commas too.
pub proof fn lemma_text_reads_back(id: Seq<char>, offset: u64)
    ensures
        reads_as(resume_text(id, offset), id, offset),
{
    let d = decimal_digits(offset as nat);
    let s = resume_text(id, offset);
    let i = id.len() as int;
    lemma_decimal_digits(offset as nat);
    assert(s[i] == ',');
    assert forall|j: int| i < j < s.len() implies #[trigger] s[j] != ',' by {
        assert(s[j] == d[j - i - 1]);
        assert(is_digit(d[j - i - 1]));
    }
    assert(is_last_comma(s, i));
    assert(s.subrange(0, i) =~= id);
    assert(s.subrange(i + 1, s.len() as int) =~= d);
    assert(is_digit(d[0]));
    assert(offset_digits(d) == d);
    assert(digits_number(d) == Some(offset));
}

/// A text reads as one checkpoint at most.
pub proof fn lemma_reads_as_one(s: Seq<char>, id: Seq<char>, offset: u64, id2: Seq<char>, offset2: u64)
    requires
        reads_as(s, id, offset),
        reads_as(s, id2, offset2),
    ensures
        id == id2,
        offset == offset2,
{
    let i = choose|i: int|
        #![trigger is_last_comma(s, i)]
        is_last_comma(s, i) && id == s.subrange(0, i) && parse_offset(
            s.subrange(i + 1, s.len() as int),
        ) == Some(offset);
    let j = choose|j: int|
        #![trigger is_last_comma(s, j)]
        is_last_comma(s, j) && id2 == s.subrange(0, j) && parse_offset(
            s.subrange(j + 1, s.len() as int),
        ) == Some(offset2);
    if i < j {
        assert(s[j] != ',');
    } else if j < i {
        assert(s[i] != ',');
    }
}

impl Resume {
    /// The checkpoint as `"{session_id},{start_offset}"`, for logs and for
    /// the reader; `from_str` reads it back.
    pub fn to_text(&self) -> (r: String)
        ensures
            r@ == resume_text(self.session_id@, self.start_offset),
    {
        let mut text = self.session_id.clone();
        text.append(",");
        text.append(offset_text(self.start_offset).as_str());
        proof {
            reveal_strlit(",");
            assert(","@ =~= seq![',']);
        }
        text
    }
}

impl ResumeParseError {
    /// The error in words.
    pub fn message(&self) -> (r: String)
        ensures
            r@ == match self {
                ResumeParseError::MissingOffset => "missing file offset"@,
                ResumeParseError::InvalidOffset => "invalid file offset"@,
            },
    {
        match self {
            ResumeParseError::MissingOffset => String::from_str("missing file offset"),
            ResumeParseError::InvalidOffset => String::from_str("invalid file offset"),
        }
    }
}

} // verus!
