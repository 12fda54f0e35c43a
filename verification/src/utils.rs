//! Repository records and small helpers shared by the whole crate.
use vstd::prelude::*;
use crate::text::{lowercased, same_text, to_lowercase};
use vstd::std_specs::cmp::PartialEqSpecImpl;
use vstd::string::StrSliceExecFns;
use vstd::string::StringExecFns;

verus! {

/// Mathematical model of a [`Repo`].
pub struct RepoView {
    pub name: Seq<char>,
    pub path: Seq<char>,
    pub description: Seq<char>,
    pub private: bool,
    pub fork: bool,
}

/// Repository information
#[derive(Debug, Eq)]
pub struct Repo {
    /// Name of the repository
    pub name: String,
    /// Path of the repository
    pub path: String,
    /// Description of the repository
    pub description: String,
    /// Whether the repository is private
    pub private: bool,
    /// Whether the repository is a fork
    pub fork: bool,
}

impl View for Repo {
    type V = RepoView;

    open spec fn view(&self) -> RepoView {
        RepoView {
            name: self.name@,
            path: self.path@,
            description: self.description@,
            private: self.private,
            fork: self.fork,
        }
    }
}

/// Two records denote the same repository when name, description, privacy
/// and fork flag agree; the path takes no part in the comparison.
pub open spec fn same_repo(a: RepoView, b: RepoView) -> bool {
    &&& a.name == b.name
    &&& a.description == b.description
    &&& a.private == b.private
    &&& a.fork == b.fork
}

impl PartialEq for Repo {
    fn eq(&self, other: &Repo) -> (res: bool) {
        self.name == other.name && self.description == other.description
            && self.private == other.private && self.fork == other.fork
    }
}

impl PartialEqSpecImpl for Repo {
    open spec fn obeys_eq_spec() -> bool {
        true
    }

    open spec fn eq_spec(&self, other: &Repo) -> bool {
        same_repo(self@, other@)
    }
}

impl Clone for Repo {
    fn clone(&self) -> (res: Repo)
        ensures
            res@ == self@,
    {
        Repo {
            name: self.name.clone(),
            path: self.path.clone(),
            description: self.description.clone(),
            private: self.private,
            fork: self.fork,
        }
    }
}

impl Default for Repo {
    fn default() -> (res: Repo)
        ensures
            res@ == (RepoView {
                name: Seq::empty(),
                path: Seq::empty(),
                description: Seq::empty(),
                private: false,
                fork: false,
            }),
    {
        Repo {
            name: String::new(),
            path: String::new(),
            description: String::new(),
            private: false,
            fork: false,
        }
    }
}

/// The name of a repository as shown to the operator: the name, and the
/// path where it differs from the name.
pub open spec fn full_name(r: RepoView) -> Seq<char> {
    if r.name == r.path {
        r.name
    } else {
        r.name + " at path '"@ + r.path + "'"@
    }
}

impl Repo {
    /// Show the full name of the repo, including its path (if different from the name)
    pub fn show_full_name(&self) -> (s: String)
        ensures
            s@ == full_name(self@),
    {
        if self.name == self.path {
            self.name.clone()
        } else {
            self.name.clone().concat(" at path '").concat(self.path.as_str()).concat("'")
        }
    }
}

/// GIT direction
#[derive(Debug, Clone, Copy, PartialEq, Eq, Structural)]
pub enum Direction {
    /// Source platform
    Source,
    /// Destination platform
    Destination,
}

/// What a reply to a yes/no question means, given its lowercase form:
/// `Some(true)` for yes, `Some(false)` for no, `None` for anything else.
pub open spec fn yes_no_meaning(lower: Seq<char>) -> Option<bool> {
    if lower == "yes"@ || lower == "y"@ || lower == "Y"@ || lower == "YES"@ || lower == "Yes "@ {
        Some(true)
    } else if lower == "no"@ || lower == "n"@ || lower == "N"@ || lower == "NO"@ || lower
        == "No"@ {
        Some(false)
    } else {
        None
    }
}

/// Reads a reply to a yes/no question from its lowercase form.
pub fn yes_no_from_lowercase(l: &str) -> (res: Option<bool>)
    ensures
        res == yes_no_meaning(l@),
{
    if same_text(l, "yes") || same_text(l, "y") || same_text(l, "Y") || same_text(l, "YES")
        || same_text(l, "Yes ") {
        Some(true)
    } else if same_text(l, "no") || same_text(l, "n") || same_text(l, "N") || same_text(l, "NO")
        || same_text(l, "No") {
        Some(false)
    } else {
        None
    }
}

/// Reads a reply to a yes/no question, whatever the case of its letters.
/// `None` asks for the question to be put again.
pub fn parse_yes_no(reply: &str) -> (res: Option<bool>)
    ensures
        res == yes_no_meaning(lowercased(reply@)),
{
    let lower = to_lowercase(reply);
    yes_no_from_lowercase(lower.as_str())
}

/// A line without the line feed at its end, and without the carriage return
/// that then ends it.
pub open spec fn without_line_ending(line: Seq<char>) -> Seq<char> {
    let cut = if line.len() > 0 && line.last() == '\n' {
        line.drop_last()
    } else {
        line
    };
    if cut.len() > 0 && cut.last() == '\r' {
        cut.drop_last()
    } else {
        cut
    }
}

/// Strips the line ending from a line that was read from the operator.
pub fn strip_line_ending(line: &str) -> (res: String)
    ensures
        res@ == without_line_ending(line@),
{
    let mut end = line.unicode_len();
    if end > 0 && line.get_char(end - 1) == '\n' {
        end = end - 1;
        assert(line@.subrange(0, end as int) =~= line@.drop_last());
    } else {
        assert(line@.subrange(0, end as int) =~= line@);
    }
    let ghost cut = line@.subrange(0, end as int);
    if end > 0 && line.get_char(end - 1) == '\r' {
        end = end - 1;
        assert(line@.subrange(0, end as int) =~= cut.drop_last());
    }
    String::from_str(line.substring_char(0, end))
}

/// The value of a decimal digit, if `c` is one.
pub open spec fn digit_value(c: char) -> Option<nat> {
    if c == '0' {
        Some(0)
    } else if c == '1' {
        Some(1)
    } else if c == '2' {
        Some(2)
    } else if c == '3' {
        Some(3)
    } else if c == '4' {
        Some(4)
    } else if c == '5' {
        Some(5)
    } else if c == '6' {
        Some(6)
    } else if c == '7' {
        Some(7)
    } else if c == '8' {
        Some(8)
    } else if c == '9' {
        Some(9)
    } else {
        None
    }
}

/// The number that a run of decimal digits denotes; `None` if a character
/// is no digit. The empty run denotes zero.
pub open spec fn digits_value(digits: Seq<char>) -> Option<nat>
    decreases digits.len(),
{
    if digits.len() == 0 {
        Some(0)
    } else {
        match (digits_value(digits.drop_last()), digit_value(digits.last())) {
            (Some(high), Some(low)) => Some(high * 10 + low),
            _ => None,
        }
    }
}

/// The number that a text denotes: one or more decimal digits, after an
/// optional plus sign.
pub open spec fn number_value(text: Seq<char>) -> Option<nat> {
    let digits = if text.len() > 0 && text[0] == '+' {
        text.subrange(1, text.len() as int)
    } else {
        text
    };
    if digits.len() == 0 {
        None
    } else {
        digits_value(digits)
    }
}

fn digit_of(c: char) -> (d: Option<usize>)
    ensures
        match d {
            Some(v) => digit_value(c) == Some(v as nat) && v < 10,
            None => digit_value(c) is None,
        },
{
    if c == '0' {
        Some(0)
    } else if c == '1' {
        Some(1)
    } else if c == '2' {
        Some(2)
    } else if c == '3' {
        Some(3)
    } else if c == '4' {
        Some(4)
    } else if c == '5' {
        Some(5)
    } else if c == '6' {
        Some(6)
    } else if c == '7' {
        Some(7)
    } else if c == '8' {
        Some(8)
    } else if c == '9' {
        Some(9)
    } else {
        None
    }
}

/// A prefix of a run of digits denotes a number no greater than the run.
pub proof fn lemma_digits_value_grows(digits: Seq<char>, k: int)
    requires
        0 <= k <= digits.len(),
        digits_value(digits) is Some,
    ensures
        digits_value(digits.take(k)) is Some,
        digits_value(digits.take(k))->0 <= digits_value(digits)->0,
    decreases digits.len() - k,
{
    if k == digits.len() {
        assert(digits.take(k) =~= digits);
    } else {
        lemma_digits_value_grows(digits.drop_last(), k);
        assert(digits.drop_last().take(k) =~= digits.take(k));
    }
}

/// Without a digit at some place, the run denotes no number.
pub proof fn lemma_digits_value_none(digits: Seq<char>, k: int)
    requires
        0 <= k <= digits.len(),
        digits_value(digits.take(k)) is None,
    ensures
        digits_value(digits) is None,
    decreases digits.len() - k,
{
    if k == digits.len() {
        assert(digits.take(k) =~= digits);
    } else {
        assert(digits.drop_last().take(k) =~= digits.take(k));
        lemma_digits_value_none(digits.drop_last(), k);
    }
}

/// Reads a number from the operator's reply. `None` when the reply is not
/// a decimal numeral or denotes a number that does not fit.
pub fn parse_number(reply: &str) -> (res: Option<usize>)
    ensures
        res == match number_value(reply@) {
            Some(n) => if n <= usize::MAX {
                Some(n as usize)
            } else {
                None
            },
            None => None,
        },
{
    let len = reply.unicode_len();
    let start: usize = if len > 0 && reply.get_char(0) == '+' {
        1
    } else {
        0
    };
    if start == len {
        return None;
    }
    let ghost digits = reply@.subrange(start as int, len as int);
    let mut value: usize = 0;
    let mut i: usize = start;
    proof {
        assert(digits.take(0) =~= Seq::<char>::empty());
        if start == 0 {
            assert(digits =~= reply@);
        }
        assert(number_value(reply@) == digits_value(digits));
    }
    while i < len
        invariant
            start <= i <= len,
            len == reply@.len(),
            digits == reply@.subrange(start as int, len as int),
            number_value(reply@) == digits_value(digits),
            digits_value(digits.take(i - start)) == Some(value as nat),
        decreases len - i,
    {
        let c = reply.get_char(i);
        let ghost prefix = digits.take(i - start + 1);
        proof {
            assert(prefix.drop_last() =~= digits.take(i - start));
            assert(prefix.last() == c);
        }
        match digit_of(c) {
            None => {
                proof {
                    lemma_digits_value_none(digits, i - start + 1);
                }
                return None;
            },
            Some(d) => {
                if value > (usize::MAX - d) / 10 {
                    proof {
                        assert(value * 10 + d > usize::MAX) by (nonlinear_arith)
                            requires
                                value > (usize::MAX - d) / 10,
                                d < 10,
                        ;
                        if digits_value(digits) is Some {
                            lemma_digits_value_grows(digits, i - start + 1);
                        }
                    }
                    return None;
                }
                assert(value * 10 + d <= usize::MAX) by (nonlinear_arith)
                    requires
                        value <= (usize::MAX - d) / 10,
                        d < 10,
                ;
                value = value * 10 + d;
            },
        }
        i += 1;
    }
    assert(digits.take(len - start) =~= digits);
    Some(value)
}

} // verus!
