//! Decoding response headers into typed records, driven by a table of rules.
use vstd::prelude::*;
use vstd::string::*;
use crate::error::{Error, ErrorView};
use crate::primitives::{http_date_of, parse_http_date};

verus! {

/// How a header's value is read.
#[derive(Clone, Copy, Debug, PartialEq, Eq, Structural)]
pub enum FieldKind {
    /// The value as it stands.
    Text,
    /// An RFC 1123 (RFC 2822) HTTP date, read as seconds since the Unix epoch.
    Timestamp,
    /// An unsigned decimal integer that fits in 64 bits (a byte count, a
    /// length).
    Integer,
}

/// One extraction rule: which header, whether it must be present, and how its
/// value is read.
#[derive(Clone, Debug)]
pub struct HeaderRule {
    pub header: String,
    pub required: bool,
    pub kind: FieldKind,
}

/// A rule with its header name as a character sequence.
pub struct RuleView {
    pub header: Seq<char>,
    pub required: bool,
    pub kind: FieldKind,
}

impl View for HeaderRule {
    type V = RuleView;

    open spec fn view(&self) -> RuleView {
        RuleView { header: self.header@, required: self.required, kind: self.kind }
    }
}

/// A value read from a header.
#[derive(Clone, Debug, PartialEq, Eq)]
pub enum FieldValue {
    Text(String),
    Timestamp(i64),
    Integer(u64),
}

/// A [`FieldValue`] with its text as a character sequence.
pub enum FieldValueView {
    Text(Seq<char>),
    Timestamp(i64),
    Integer(u64),
}

impl View for FieldValue {
    type V = FieldValueView;

    open spec fn view(&self) -> FieldValueView {
        match self {
            FieldValue::Text(s) => FieldValueView::Text(s@),
            FieldValue::Timestamp(t) => FieldValueView::Timestamp(*t),
            FieldValue::Integer(n) => FieldValueView::Integer(*n),
        }
    }
}

/// `c` with ASCII upper case folded to lower case, as a code point.
pub open spec fn folded(c: char) -> u32 {
    if 'A' <= c && c <= 'Z' {
        (c as u32 + 32) as u32
    } else {
        c as u32
    }
}

/// Header names are equal but for ASCII case.
pub open spec fn same_name(a: Seq<char>, b: Seq<char>) -> bool {
    a.len() == b.len() && forall|i: int| 0 <= i < a.len() ==> folded(a[i]) == folded(b[i])
}

/// Compares two header names, ignoring ASCII case.
pub fn names_match(a: &str, b: &str) -> (r: bool)
    ensures
        r == same_name(a@, b@),
{
    let n = a.unicode_len();
    if n != b.unicode_len() {
        return false;
    }
    let mut i: usize = 0;
    while i < n
        invariant
            i <= n,
            n == a@.len(),
            n == b@.len(),
            forall|j: int| 0 <= j < i ==> folded(a@[j]) == folded(b@[j]),
        decreases n - i,
    {
        let x = a.get_char(i);
        let y = b.get_char(i);
        let fx: u32 = if 'A' <= x && x <= 'Z' {
            x as u32 + 32
        } else {
            x as u32
        };
        let fy: u32 = if 'A' <= y && y <= 'Z' {
            y as u32 + 32
        } else {
            y as u32
        };
        if fx != fy {
            return false;
        }
        i = i + 1;
    }
    true
}

/// The value of the first header whose name is `name` but for ASCII case, if
/// any.
pub open spec fn header_value(headers: Seq<(String, String)>, name: Seq<char>) -> Option<
    Seq<char>,
>
    decreases headers.len(),
{
    if headers.len() == 0 {
        None
    } else if same_name(headers[0].0@, name) {
        Some(headers[0].1@)
    } else {
        header_value(headers.drop_first(), name)
    }
}

/// What one rule yields on a header set: a value, nothing (an optional header
/// that is absent), or the error that aborts the decode.
pub open spec fn field_outcome(rule: RuleView, headers: Seq<(String, String)>) -> Result<
    Option<FieldValueView>,
    ErrorView,
> {
    match header_value(headers, rule.header) {
        None => if rule.required {
            Err(ErrorView::HeaderMissing(rule.header))
        } else {
            Ok(None)
        },
        Some(v) => match rule.kind {
            FieldKind::Text => Ok(Some(FieldValueView::Text(v))),
            FieldKind::Timestamp => match http_date_of(v) {
                Some(t) => Ok(Some(FieldValueView::Timestamp(t))),
                None => Err(ErrorView::FieldParse { header: rule.header, value: v }),
            },
            FieldKind::Integer => match integer_of(v) {
                Some(n) => Ok(Some(FieldValueView::Integer(n))),
                None => Err(ErrorView::FieldParse { header: rule.header, value: v }),
            },
        },
    }
}

/// The decode of a header set by a rule table: the value of every rule in
/// order, or the error of the first rule that fails.
pub open spec fn decode_spec(rules: Seq<RuleView>, headers: Seq<(String, String)>) -> Result<
    Seq<Option<FieldValueView>>,
    ErrorView,
>
    decreases rules.len(),
{
    if rules.len() == 0 {
        Ok(Seq::empty())
    } else {
        match decode_spec(rules.drop_last(), headers) {
            Err(e) => Err(e),
            Ok(vs) => match field_outcome(rules.last(), headers) {
                Err(e) => Err(e),
                Ok(v) => Ok(vs.push(v)),
            },
        }
    }
}

pub open spec fn rules_view(rules: Seq<HeaderRule>) -> Seq<RuleView> {
    rules.map_values(|r: HeaderRule| r@)
}

pub open spec fn values_view(values: Seq<Option<FieldValue>>) -> Seq<Option<FieldValueView>> {
    values.map_values(
        |o: Option<FieldValue>|
            match o {
                Some(v) => Some(v@),
                None => None,
            },
    )
}

/// Finds the value of the first header named `name`, ignoring ASCII case.
pub fn find_header(headers: &Vec<(String, String)>, name: &String) -> (r: Option<String>)
    ensures
        match header_value(headers@, name@) {
            Some(v) => r matches Some(s) && s@ == v,
            None => r is None,
        },
{
    let mut i: usize = 0;
    assert(headers@.subrange(0, headers@.len() as int) =~= headers@);
    while i < headers.len()
        invariant
            i <= headers@.len(),
            header_value(headers@, name@) == header_value(headers@.subrange(i as int, headers@.len() as int), name@),
        decreases headers@.len() - i,
    {
        let ghost rest = headers@.subrange(i as int, headers@.len() as int);
        assert(rest.drop_first() =~= headers@.subrange(i + 1, headers@.len() as int));
        if names_match(headers[i].0.as_str(), name.as_str()) {
            return Some(headers[i].1.clone());
        }
        i = i + 1;
    }
    None
}

/// Applies one rule to a header set.
fn decode_field(rule: &HeaderRule, headers: &Vec<(String, String)>) -> (r: Result<Option<FieldValue>, Error>)
    ensures
        match field_outcome(rule@, headers@) {
            Ok(Some(v)) => r matches Ok(Some(x)) && x@ == v,
            Ok(None) => r matches Ok(None),
            Err(e) => r matches Err(x) && x@ == e,
        },
{
    match find_header(headers, &rule.header) {
        None => {
            if rule.required {
                Err(Error::HeaderMissing(rule.header.clone()))
            } else {
                Ok(None)
            }
        },
        Some(value) => match rule.kind {
            FieldKind::Text => Ok(Some(FieldValue::Text(value))),
            FieldKind::Timestamp => match parse_http_date(value.as_str()) {
                Ok(t) => Ok(Some(FieldValue::Timestamp(t))),
                Err(_) => Err(Error::FieldParse { header: rule.header.clone(), value }),
            },
            FieldKind::Integer => match parse_integer(value.as_str()) {
                Some(n) => Ok(Some(FieldValue::Integer(n))),
                None => Err(Error::FieldParse { header: rule.header.clone(), value }),
            },
        },
    }
}

/// An error in a prefix of the rule table is the error of the whole table.
proof fn lemma_decode_prefix_error(rules: Seq<RuleView>, headers: Seq<(String, String)>, k: int)
    requires
        0 <= k <= rules.len(),
        decode_spec(rules.take(k), headers) is Err,
    ensures
        decode_spec(rules, headers) == decode_spec(rules.take(k), headers),
    decreases rules.len() - k,
{
    if k < rules.len() {
        assert(rules.take(k + 1).drop_last() =~= rules.take(k));
        lemma_decode_prefix_error(rules, headers, k + 1);
    } else {
        assert(rules.take(k) =~= rules);
    }
}

/// Decodes a header set by a rule table: all or nothing.
pub fn decode_headers(rules: &Vec<HeaderRule>, headers: &Vec<(String, String)>) -> (r: Result<
    Vec<Option<FieldValue>>,
    Error,
>)
    ensures
        match decode_spec(rules_view(rules@), headers@) {
            Ok(vs) => r matches Ok(out) && values_view(out@) == vs,
            Err(e) => r matches Err(x) && x@ == e,
        },
{
    let ghost rv = rules_view(rules@);
    let mut out: Vec<Option<FieldValue>> = Vec::new();
    let mut i: usize = 0;
    assert(rv.take(0) =~= Seq::<RuleView>::empty());
    assert(values_view(out@) =~= Seq::<Option<FieldValueView>>::empty());
    while i < rules.len()
        invariant
            i <= rules@.len(),
            rv == rules_view(rules@),
            decode_spec(rv.take(i as int), headers@) == Ok::<
                Seq<Option<FieldValueView>>,
                ErrorView,
            >(values_view(out@)),
        decreases rules@.len() - i,
    {
        assert(rv.take(i + 1).drop_last() =~= rv.take(i as int));
        assert(rv.take(i + 1).last() == rules@[i as int]@);
        match decode_field(&rules[i], headers) {
            Ok(v) => {
                let ghost before = out@;
                out.push(v);
                assert(values_view(out@) =~= values_view(before).push(
                    match v {
                        Some(x) => Some(x@),
                        None => None,
                    },
                ));
            },
            Err(e) => {
                proof {
                    lemma_decode_prefix_error(rv, headers@, i + 1);
                }
                return Err(e);
            },
        }
        i = i + 1;
    }
    assert(rv.take(i as int) =~= rv);
    Ok(out)
}

/// A successful decode holds one value per rule, each the outcome of its rule.
pub proof fn lemma_decode_ok_fields(rules: Seq<RuleView>, headers: Seq<(String, String)>)
    ensures
        decode_spec(rules, headers) matches Ok(vs) ==> {
            &&& vs.len() == rules.len()
            &&& forall|i: int|
                0 <= i < rules.len() ==> field_outcome(rules[i], headers) == Ok::<
                    Option<FieldValueView>,
                    ErrorView,
                >(#[trigger] vs[i])
        },
    decreases rules.len(),
{
    if rules.len() > 0 {
        lemma_decode_ok_fields(rules.drop_last(), headers);
    }
}

/// A header set on which every rule yields a value decodes, and each field is
/// the value of its rule.
pub proof fn lemma_decode_complete(rules: Seq<RuleView>, headers: Seq<(String, String)>)
    requires
        forall|i: int| 0 <= i < rules.len() ==> (#[trigger] field_outcome(rules[i], headers)) is Ok,
    ensures
        decode_spec(rules, headers) matches Ok(vs) && vs.len() == rules.len() && forall|i: int|
            0 <= i < rules.len() ==> field_outcome(rules[i], headers) == Ok::<
                Option<FieldValueView>,
                ErrorView,
            >(#[trigger] vs[i]),
    decreases rules.len(),
{
    if rules.len() > 0 {
        let prefix = rules.drop_last();
        assert forall|i: int| 0 <= i < prefix.len() implies (#[trigger] field_outcome(
            prefix[i],
            headers,
        )) is Ok by {
            assert(prefix[i] == rules[i]);
        }
        lemma_decode_complete(prefix, headers);
        assert(field_outcome(rules[rules.len() - 1], headers) is Ok);
    }
    lemma_decode_ok_fields(rules, headers);
}

/// A header set that lacks exactly one required header, and on which every
/// other rule yields a value, fails to decode with `HeaderMissing` naming
/// that header.
pub proof fn lemma_decode_missing_header(
    rules: Seq<RuleView>,
    headers: Seq<(String, String)>,
    k: int,
)
    requires
        0 <= k < rules.len(),
        rules[k].required,
        header_value(headers, rules[k].header) is None,
        forall|j: int|
            0 <= j < rules.len() && j != k ==> (#[trigger] field_outcome(rules[j], headers)) is Ok,
    ensures
        decode_spec(rules, headers) == Err::<Seq<Option<FieldValueView>>, ErrorView>(
            ErrorView::HeaderMissing(rules[k].header),
        ),
{
    let prefix = rules.take(k);
    assert forall|i: int| 0 <= i < prefix.len() implies (#[trigger] field_outcome(
        prefix[i],
        headers,
    )) is Ok by {
        assert(prefix[i] == rules[i]);
    }
    lemma_decode_complete(prefix, headers);
    assert(rules.take(k + 1).drop_last() =~= prefix);
    assert(rules.take(k + 1).last() == rules[k]);
    lemma_decode_prefix_error(rules, headers, k + 1);
}

pub open spec fn is_digit(c: char) -> bool {
    '0' <= c && c <= '9'
}

/// The value of a digit.
pub open spec fn digit_value(c: char) -> nat {
    (c as u32 - '0' as u32) as nat
}

/// The number that the decimal digits `s` write.
pub open spec fn digits_value(s: Seq<char>) -> nat
    decreases s.len(),
{
    if s.len() == 0 {
        0
    } else {
        digits_value(s.drop_last()) * 10 + digit_value(s.last())
    }
}

/// The integer that `s` writes in decimal, where `s` is one or more digits
/// and the number fits in 64 bits.
pub open spec fn integer_of(s: Seq<char>) -> Option<u64> {
    if s.len() > 0 && (forall|i: int| 0 <= i < s.len() ==> is_digit(#[trigger] s[i]))
        && digits_value(s) <= u64::MAX {
        Some(digits_value(s) as u64)
    } else {
        None
    }
}

/// A prefix of a digit string writes no larger a number than the whole.
proof fn lemma_digits_value_prefix(s: Seq<char>, k: int)
    requires
        0 <= k <= s.len(),
        forall|i: int| 0 <= i < s.len() ==> is_digit(#[trigger] s[i]),
    ensures
        digits_value(s.take(k)) <= digits_value(s),
    decreases s.len(),
{
    if k == s.len() {
        assert(s.take(k) =~= s);
    } else {
        let prefix = s.drop_last();
        assert(prefix.take(k) =~= s.take(k));
        lemma_digits_value_prefix(prefix, k);
    }
}

/// Reads an unsigned decimal integer; `None` where the text is empty, holds a
/// character other than a digit, or writes a number above `u64::MAX`.
pub fn parse_integer(s: &str) -> (r: Option<u64>)
    ensures
        r == integer_of(s@),
{
    let n = s.unicode_len();
    if n == 0 {
        return None;
    }
    let mut acc: u64 = 0;
    let mut i: usize = 0;
    assert(s@.take(0) =~= Seq::<char>::empty());
    while i < n
        invariant
            i <= n,
            n == s@.len(),
            forall|j: int| 0 <= j < i ==> is_digit(#[trigger] s@[j]),
            acc as nat == digits_value(s@.take(i as int)),
        decreases n - i,
    {
        let c = s.get_char(i);
        if !('0' <= c && c <= '9') {
            assert(!is_digit(s@[i as int]));
            return None;
        }
        let d: u64 = (c as u32 - '0' as u32) as u64;
        assert(s@.take(i + 1).drop_last() =~= s@.take(i as int));
        assert(digits_value(s@.take(i + 1)) == acc * 10 + d);
        if acc > (u64::MAX - d) / 10 {
            assert(acc * 10 + d > u64::MAX) by (nonlinear_arith)
                requires
                    acc > (u64::MAX - d) / 10,
                    d <= 9,
            ;
            proof {
                if forall|j: int| 0 <= j < s@.len() ==> is_digit(#[trigger] s@[j]) {
                    lemma_digits_value_prefix(s@, i + 1);
                }
            }
            return None;
        }
        assert(acc * 10 + d <= u64::MAX) by (nonlinear_arith)
            requires
                acc <= (u64::MAX - d) / 10,
                d <= 9,
        ;
        acc = acc * 10 + d;
        i = i + 1;
    }
    assert(s@.take(n as int) =~= s@);
    Some(acc)
}

/// A rule for the header `header`.
pub fn header_rule(header: &str, required: bool, kind: FieldKind) -> (r: HeaderRule)
    ensures
        r@ == (RuleView { header: header@, required, kind }),
{
    HeaderRule { header: String::from_str(header), required, kind }
}

/// The text read at position `i` of a decode, if it is text.
pub fn text_at(values: &Vec<Option<FieldValue>>, i: usize) -> (r: Option<String>)
    requires
        i < values@.len(),
    ensures
        match values_view(values@)[i as int] {
            Some(FieldValueView::Text(s)) => r matches Some(x) && x@ == s,
            _ => r is None,
        },
{
    match &values[i] {
        Some(FieldValue::Text(s)) => Some(s.clone()),
        _ => None,
    }
}

/// The instant read at position `i` of a decode, if it is an instant.
pub fn timestamp_at(values: &Vec<Option<FieldValue>>, i: usize) -> (r: Option<i64>)
    requires
        i < values@.len(),
    ensures
        match values_view(values@)[i as int] {
            Some(FieldValueView::Timestamp(t)) => r == Some(t),
            _ => r is None,
        },
{
    match &values[i] {
        Some(FieldValue::Timestamp(t)) => Some(*t),
        _ => None,
    }
}

} // verus!
