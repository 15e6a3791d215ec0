//! The arguments of a registration: a code and a name, written as an integer
//! literal and a string literal.

use crate::error::{PipelineError, PipelineErrorView};
use crate::syntax::{literal_list, literal_views, split_literals, Literal, LiteralView};
use vstd::prelude::*;
use vstd::string::StrSliceExecFns;

verus! {

/// The value of a decimal digit; `None` for any other character.
pub open spec fn digit_value(c: char) -> Option<nat> {
    if '0' <= c && c <= '9' {
        Some((c as nat - '0' as nat) as nat)
    } else {
        None
    }
}

/// The number that a sequence of decimal digits writes; `None` where the
/// sequence is empty or holds anything but digits.
pub open spec fn decimal_value(digits: Seq<char>) -> Option<nat>
    decreases digits.len(),
{
    if digits.len() == 0 {
        None
    } else {
        match digit_value(digits.last()) {
            None => None,
            Some(d) => if digits.len() == 1 {
                Some(d)
            } else {
                match decimal_value(digits.drop_last()) {
                    None => None,
                    Some(v) => Some(v * 10 + d),
                }
            },
        }
    }
}

/// The number that the digits write, where it fits in 64 bits.
pub open spec fn decimal_u64(digits: Seq<char>) -> Option<u64> {
    match decimal_value(digits) {
        Some(v) => if v <= u64::MAX {
            Some(v as u64)
        } else {
            None
        },
        None => None,
    }
}

/// A number is no less than what its leading digits write.
proof fn prefix_value_bounded(digits: Seq<char>, k: int)
    requires
        1 <= k <= digits.len(),
        decimal_value(digits) is Some,
    ensures
        decimal_value(digits.take(k)) is Some,
        decimal_value(digits.take(k)).unwrap() <= decimal_value(digits).unwrap(),
    decreases digits.len(),
{
    if k == digits.len() {
        assert(digits.take(k) =~= digits);
    } else {
        assert(digits.drop_last().take(k) =~= digits.take(k));
        prefix_value_bounded(digits.drop_last(), k);
    }
}

/// Where some leading digits do not write a number, the whole does not.
proof fn prefix_invalid(digits: Seq<char>, k: int)
    requires
        1 <= k <= digits.len(),
        decimal_value(digits.take(k)) is None,
    ensures
        decimal_value(digits) is None,
    decreases digits.len(),
{
    if k == digits.len() {
        assert(digits.take(k) =~= digits);
    } else {
        assert(digits.drop_last().take(k) =~= digits.take(k));
        prefix_invalid(digits.drop_last(), k);
    }
}

/// Reads an unsigned number in base ten.
pub fn parse_decimal(digits: &str) -> (r: Option<u64>)
    ensures
        r == decimal_u64(digits@),
{
    let n = digits.unicode_len();
    if n == 0 {
        return None;
    }
    let mut value: u64 = 0;
    let mut i: usize = 0;
    while i < n
        invariant
            i <= n,
            n == digits@.len(),
            i > 0 ==> decimal_value(digits@.take(i as int)) == Some(value as nat),
            i == 0 ==> value == 0,
        decreases n - i,
    {
        let c = digits.get_char(i);
        let ghost next = digits@.take(i + 1);
        assert(next.last() == c);
        assert(next.drop_last() =~= digits@.take(i as int));
        if !(c >= '0' && c <= '9') {
            proof {
                prefix_invalid(digits@, i + 1);
            }
            return None;
        }
        let d: u64 = (c as u64) - ('0' as u64);
        if value > (u64::MAX - d) / 10 {
            proof {
                assert(decimal_value(next) == Some((value * 10 + d) as nat));
                if decimal_value(digits@) is Some {
                    prefix_value_bounded(digits@, i + 1);
                }
            }
            return None;
        }
        value = value * 10 + d;
        i += 1;
    }
    assert(digits@.take(n as int) =~= digits@);
    Some(value)
}

/// The arguments of a registration.
#[derive(Clone, Debug, PartialEq, Eq)]
pub struct MetaArgs {
    pub code: u64,
    pub name: String,
}

pub struct MetaArgsView {
    pub code: u64,
    pub name: Seq<char>,
}

impl View for MetaArgs {
    type V = MetaArgsView;

    open spec fn view(&self) -> MetaArgsView {
        MetaArgsView { code: self.code, name: self.name@ }
    }
}

/// What a list of literals registers: exactly two of them, an integer that
/// fits in 64 bits and then a string.
pub open spec fn registration(literals: Seq<LiteralView>) -> Option<MetaArgsView> {
    if literals.len() != 2 {
        None
    } else {
        match (literals[0], literals[1]) {
            (LiteralView::Int { digits }, LiteralView::Str { value }) => match decimal_u64(digits) {
                Some(code) => Some(MetaArgsView { code, name: value }),
                None => None,
            },
            _ => None,
        }
    }
}

/// What the text of the arguments registers; `None` where it is no list of
/// literals or not the two that are asked for.
pub open spec fn meta_args_model(args: Seq<char>) -> Option<MetaArgsView> {
    match literal_list(args) {
        None => None,
        Some(literals) => registration(literals),
    }
}

impl MetaArgs {
    /// Takes the code and the name out of a list of literals.
    pub fn from_literals(literals: Vec<Literal>) -> (r: Option<MetaArgs>)
        ensures
            match r {
                Some(args) => registration(literal_views(literals@)) == Some(args@),
                None => registration(literal_views(literals@)) is None,
            },
    {
        let mut literals = literals;
        let ghost views = literal_views(literals@);
        if literals.len() != 2 {
            return None;
        }
        let second = literals.pop();
        let first = literals.pop();
        match (first, second) {
            (Some(Literal::Int { digits }), Some(Literal::Str { value })) => {
                assert(views[0] == (LiteralView::Int { digits: digits@ }));
                assert(views[1] == (LiteralView::Str { value: value@ }));
                match parse_decimal(digits.as_str()) {
                    Some(code) => Some(MetaArgs { code, name: value }),
                    None => None,
                }
            },
            (Some(a), Some(b)) => {
                assert(views[0] == a@);
                assert(views[1] == b@);
                None
            },
            _ => None,
        }
    }

    /// Reads the arguments of a registration, written as `<code>, <name>`.
    ///
    /// Fails with `InvalidArguments` on anything but an integer literal that
    /// fits in 64 bits followed by a string literal.
    pub fn parse(args: &str) -> (r: Result<MetaArgs, PipelineError>)
        ensures
            match r {
                Ok(parsed) => meta_args_model(args@) == Some(parsed@),
                Err(e) => meta_args_model(args@) is None && e@
                    == PipelineErrorView::InvalidArguments,
            },
    {
        match split_literals(args) {
            Err(_) => Err(PipelineError::InvalidArguments),
            Ok(literals) => match MetaArgs::from_literals(literals) {
                Some(parsed) => Ok(parsed),
                None => Err(PipelineError::InvalidArguments),
            },
        }
    }
}

} // verus!
