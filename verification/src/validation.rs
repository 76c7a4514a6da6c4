//! Field validation: the rules that the request payloads declare, the issues
//! that a failed check records, and how those issues read as text.
use vstd::prelude::*;
use validator::{ValidateEmail, ValidateUrl};
use crate::text::{decimal, push_decimal};

verus! {

/// One failed check: a code naming the rule and an optional message for users.
pub struct ValidationError {
    pub code: String,
    pub message: Option<String>,
}

/// A failed check on a named field, with the debug text of the parameters that
/// the check records, such as `{"min": Number(1), "value": String("")}`.
pub struct FieldError {
    pub field: String,
    pub error: ValidationError,
    pub params: String,
}

/// All failed checks of one payload, in the order in which its fields are declared.
pub struct ValidationErrors {
    pub errors: Vec<FieldError>,
}

/// A failed check seen as plain values: field, code, message, parameter text.
pub type Issue = (Seq<char>, Seq<char>, Option<Seq<char>>, Seq<char>);

pub open spec fn opt_view(o: Option<String>) -> Option<Seq<char>> {
    match o {
        Some(s) => Some(s@),
        None => None,
    }
}

impl View for ValidationError {
    type V = (Seq<char>, Option<Seq<char>>);

    open spec fn view(&self) -> (Seq<char>, Option<Seq<char>>) {
        (self.code@, opt_view(self.message))
    }
}

impl View for FieldError {
    type V = Issue;

    open spec fn view(&self) -> Issue {
        (self.field@, self.error.code@, opt_view(self.error.message), self.params@)
    }
}

impl View for ValidationErrors {
    type V = Seq<Issue>;

    open spec fn view(&self) -> Seq<Issue> {
        self.errors@.map_values(|e: FieldError| e@)
    }
}

/// How `format!("{:?}", s)` writes a string: quoted, with quotes, backslashes
/// and control characters escaped.
pub uninterp spec fn debug_text(s: Seq<char>) -> Seq<char>;

/// `format!("{:?}", s)` of a string.
#[verifier::external_body]
fn str_debug(s: &str) -> (r: String)
    ensures
        r@ == debug_text(s@),
{
    format!("{:?}", s)
}

pub open spec fn opt_nat(o: Option<u64>) -> Option<nat> {
    match o {
        Some(m) => Some(m as nat),
        None => None,
    }
}

/// The debug text of a string parameter: `String("..")`.
pub open spec fn string_value(s: Seq<char>) -> Seq<char> {
    "String("@ + debug_text(s) + ")"@
}

/// The debug text of a whole-number parameter: `Number(..)`.
pub open spec fn number_value(n: nat) -> Seq<char> {
    "Number("@ + decimal(n) + ")"@
}

/// The entry of a bound among the parameters, when there is one: `"name": Number(n), `.
pub open spec fn number_entry(name: Seq<char>, n: Option<nat>) -> Seq<char> {
    match n {
        Some(n) => "\""@ + name + "\": "@ + number_value(n) + ", "@,
        None => Seq::empty(),
    }
}

/// The debug text of a check's parameters: its bounds, then the checked value
/// (already written as a parameter), in the order the check records them.
pub open spec fn bound_params(min: Option<nat>, max: Option<nat>, value: Seq<char>) -> Seq<char> {
    "{"@ + number_entry("min"@, min) + number_entry("max"@, max) + "\"value\": "@ + value + "}"@
}

/// The debug text of parameters that hold the checked string value alone.
pub open spec fn value_params(value: Seq<char>) -> Seq<char> {
    bound_params(None, None, string_value(value))
}

/// The debug text of no parameters.
pub open spec fn no_params() -> Seq<char> {
    "{}"@
}

fn string_value_text(s: &str) -> (t: String)
    ensures
        t@ == string_value(s@),
{
    let mut t = String::from_str("String(");
    let d = str_debug(s);
    t.append(d.as_str());
    t.append(")");
    t
}

fn number_value_text(n: u64) -> (t: String)
    ensures
        t@ == number_value(n as nat),
{
    let mut t = String::from_str("Number(");
    push_decimal(&mut t, n);
    t.append(")");
    t
}

fn push_number_entry(t: &mut String, name: &str, n: Option<u64>)
    ensures
        final(t)@ == old(t)@ + number_entry(name@, opt_nat(n)),
{
    match n {
        Some(n) => {
            t.append("\"");
            t.append(name);
            t.append("\": ");
            let v = number_value_text(n);
            t.append(v.as_str());
            t.append(", ");
            assert(final(t)@ =~= old(t)@ + number_entry(name@, opt_nat(Some(n))));
        },
        None => {
            assert(final(t)@ =~= old(t)@ + number_entry(name@, opt_nat(n)));
        },
    }
}

fn bound_params_text(min: Option<u64>, max: Option<u64>, value: &str) -> (t: String)
    ensures
        t@ == bound_params(opt_nat(min), opt_nat(max), value@),
{
    let mut t = String::from_str("{");
    push_number_entry(&mut t, "min", min);
    push_number_entry(&mut t, "max", max);
    t.append("\"value\": ");
    t.append(value);
    t.append("}");
    assert(t@ =~= bound_params(opt_nat(min), opt_nat(max), value@));
    t
}

fn value_params_text(value: &str) -> (t: String)
    ensures
        t@ == value_params(value@),
{
    let v = string_value_text(value);
    bound_params_text(None, None, v.as_str())
}

/// The issue recorded for `field` when its check fails, none when it holds.
pub open spec fn issue_if(
    fails: bool,
    field: Seq<char>,
    code: Seq<char>,
    message: Option<Seq<char>>,
    params: Seq<char>,
) -> Seq<Issue> {
    if fails {
        seq![(field, code, message, params)]
    } else {
        Seq::empty()
    }
}

/// The issue recorded for `field` when a check that records the checked
/// `value` alone fails, none when it holds.
pub open spec fn value_issue_if(
    fails: bool,
    field: Seq<char>,
    code: Seq<char>,
    message: Option<Seq<char>>,
    value: Seq<char>,
) -> Seq<Issue> {
    issue_if(fails, field, code, message, value_params(value))
}

/// The issue that a custom check of `field` with value `value` reports, none
/// when it passed; the check's error gains the value as its parameter.
pub open spec fn custom_issue(
    field: Seq<char>,
    verdict: Result<(), (Seq<char>, Option<Seq<char>>)>,
    value: Seq<char>,
) -> Seq<Issue> {
    match verdict {
        Ok(()) => Seq::empty(),
        Err(e) => seq![(field, e.0, e.1, value_params(value))],
    }
}

pub open spec fn verdict_view(v: Result<(), ValidationError>) -> Result<
    (),
    (Seq<char>, Option<Seq<char>>),
> {
    match v {
        Ok(()) => Ok(()),
        Err(e) => Err(e@),
    }
}

/// The length rule: the number of characters lies within the given bounds.
pub open spec fn length_ok(s: Seq<char>, min: Option<nat>, max: Option<nat>) -> bool {
    &&& (min matches Some(m) ==> s.len() >= m)
    &&& (max matches Some(m) ==> s.len() <= m)
}

/// The issue a failed length check records (code `length`, the given message,
/// the bounds and the value as parameters).
pub open spec fn length_issue(
    field: Seq<char>,
    value: Seq<char>,
    min: Option<nat>,
    max: Option<nat>,
    message: Seq<char>,
) -> Seq<Issue> {
    issue_if(
        !length_ok(value, min, max),
        field,
        "length"@,
        Some(message),
        bound_params(min, max, string_value(value)),
    )
}

/// The range rule on a number.
pub open spec fn range_ok(v: nat, min: Option<nat>, max: Option<nat>) -> bool {
    &&& (min matches Some(m) ==> v >= m)
    &&& (max matches Some(m) ==> v <= m)
}

/// The issue a failed range check records (code `range`, the bounds and the
/// value as parameters).
pub open spec fn range_issue(
    field: Seq<char>,
    value: nat,
    min: Option<nat>,
    max: Option<nat>,
    message: Option<Seq<char>>,
) -> Seq<Issue> {
    issue_if(
        !range_ok(value, min, max),
        field,
        "range"@,
        message,
        bound_params(min, max, number_value(value)),
    )
}

/// What the validator crate's e-mail check decides of a string
/// (the HTML5 address syntax with length limits and IDN domains).
pub uninterp spec fn is_email(s: Seq<char>) -> bool;

/// What the validator crate's URL check decides of a string (the URL parses).
pub uninterp spec fn is_url(s: Seq<char>) -> bool;

/// `validator::ValidateEmail::validate_email` on a string.
#[verifier::external_body]
pub(crate) fn check_email(s: &str) -> (ok: bool)
    ensures
        ok == is_email(s@),
{
    s.validate_email()
}

/// `validator::ValidateUrl::validate_url` on a string.
#[verifier::external_body]
pub(crate) fn check_url(s: &str) -> (ok: bool)
    ensures
        ok == is_url(s@),
{
    s.validate_url()
}

/// Number of characters of a string.
pub fn char_count(s: &str) -> (n: usize)
    ensures
        n == s@.len(),
{
    s.unicode_len()
}

/// The text that one failed check shows: its message, or a generic note with
/// its code and its parameters.
pub open spec fn error_text(code: Seq<char>, message: Option<Seq<char>>, params: Seq<char>) -> Seq<
    char,
> {
    match message {
        Some(m) => m,
        None => "Validation error: "@ + code + " ["@ + params + "]"@,
    }
}

/// One line of the report: `field: text`.
pub open spec fn issue_line(i: Issue) -> Seq<char> {
    i.0 + ": "@ + error_text(i.1, i.2, i.3)
}

/// The report of all failed checks: a line per field, `field: text`, the texts
/// of a field's successive failed checks joined by `, `.
pub open spec fn issues_text(issues: Seq<Issue>) -> Seq<char>
    decreases issues.len(),
{
    if issues.len() == 0 {
        Seq::empty()
    } else if issues.len() == 1 {
        issue_line(issues[0])
    } else {
        let last = issues.last();
        if last.0 == issues[issues.len() - 2].0 {
            issues_text(issues.drop_last()) + ", "@ + error_text(last.1, last.2, last.3)
        } else {
            issues_text(issues.drop_last()) + "\n"@ + issue_line(last)
        }
    }
}

/// The debug text of an optional message: `None` or `Some("..")`.
pub open spec fn option_debug(m: Option<Seq<char>>) -> Seq<char> {
    match m {
        Some(m) => "Some("@ + debug_text(m) + ")"@,
        None => "None"@,
    }
}

/// The debug text of one failed check.
pub open spec fn error_debug(i: Issue) -> Seq<char> {
    "ValidationError { code: "@ + debug_text(i.1) + ", message: "@ + option_debug(i.2)
        + ", params: "@ + i.3 + " }"@
}

/// The start of a field's entry, with its first failed check.
pub open spec fn field_open(i: Issue) -> Seq<char> {
    debug_text(i.0) + ": Field(["@ + error_debug(i)
}

/// The entries of the failed checks, the last one left open: successive
/// checks of one field share its entry.
pub open spec fn issues_debug(issues: Seq<Issue>) -> Seq<char>
    decreases issues.len(),
{
    if issues.len() == 0 {
        Seq::empty()
    } else if issues.len() == 1 {
        field_open(issues[0])
    } else {
        let last = issues.last();
        if last.0 == issues[issues.len() - 2].0 {
            issues_debug(issues.drop_last()) + ", "@ + error_debug(last)
        } else {
            issues_debug(issues.drop_last()) + "]), "@ + field_open(last)
        }
    }
}

/// The debug form of the failed checks, as validator's `ValidationErrors`
/// writes it: `ValidationErrors({"field": Field([ValidationError { .. }, ..]), ..})`.
pub open spec fn errors_debug(issues: Seq<Issue>) -> Seq<char> {
    "ValidationErrors({"@ + (if issues.len() == 0 {
        Seq::empty()
    } else {
        issues_debug(issues) + "])"@
    }) + "})"@
}

/// The first message that any failed check carries, or `"invalid value"`.
pub open spec fn first_message(issues: Seq<Issue>) -> Seq<char>
    decreases issues.len(),
{
    if issues.len() == 0 {
        "invalid value"@
    } else {
        match issues[0].2 {
            Some(m) => m,
            None => first_message(issues.drop_first()),
        }
    }
}

/// The message of the first failed check, or `"invalid value"` when it has none.
pub open spec fn leading_message(issues: Seq<Issue>) -> Seq<char> {
    if issues.len() > 0 && issues[0].2 is Some {
        issues[0].2->0
    } else {
        "invalid value"@
    }
}

fn error_debug_text(e: &FieldError) -> (s: String)
    ensures
        s@ == error_debug(e@),
{
    let mut s = String::from_str("ValidationError { code: ");
    let c = str_debug(e.error.code.as_str());
    s.append(c.as_str());
    s.append(", message: ");
    match &e.error.message {
        Some(m) => {
            s.append("Some(");
            let d = str_debug(m.as_str());
            s.append(d.as_str());
            s.append(")");
        },
        None => s.append("None"),
    }
    s.append(", params: ");
    s.append(e.params.as_str());
    s.append(" }");
    s
}

fn field_open_text(e: &FieldError) -> (s: String)
    ensures
        s@ == field_open(e@),
{
    let mut s = str_debug(e.field.as_str());
    s.append(": Field([");
    let d = error_debug_text(e);
    s.append(d.as_str());
    s
}

fn error_text_of(e: &FieldError) -> (s: String)
    ensures
        s@ == error_text(e@.1, e@.2, e@.3),
{
    match &e.error.message {
        Some(m) => m.clone(),
        None => {
            let mut s = String::from_str("Validation error: ");
            s.append(e.error.code.as_str());
            s.append(" [");
            s.append(e.params.as_str());
            s.append("]");
            s
        },
    }
}

/// The first message is that of the earliest failed check that carries one,
/// and `"invalid value"` when none does.
pub proof fn lemma_first_message(issues: Seq<Issue>, k: int)
    ensures
        (forall|j: int| 0 <= j < issues.len() ==> (#[trigger] issues[j]).2 is None) ==> first_message(
            issues,
        ) == "invalid value"@,
        0 <= k < issues.len() && issues[k].2 is Some && (forall|j: int|
            0 <= j < k ==> (#[trigger] issues[j]).2 is None) ==> first_message(issues)
            == issues[k].2->0,
    decreases issues.len(),
{
    if issues.len() > 0 {
        let rest = issues.drop_first();
        lemma_first_message(rest, k - 1);
        if forall|j: int| 0 <= j < issues.len() ==> (#[trigger] issues[j]).2 is None {
            assert(issues[0].2 is None);
            assert forall|j: int| 0 <= j < rest.len() implies (#[trigger] rest[j]).2 is None by {
                assert(rest[j] == issues[j + 1]);
            }
        }
        if 0 <= k < issues.len() && issues[k].2 is Some && (forall|j: int|
            0 <= j < k ==> (#[trigger] issues[j]).2 is None) {
            if k > 0 {
                assert(issues[0].2 is None);
                assert(rest[k - 1] == issues[k]);
                assert forall|j: int| 0 <= j < k - 1 implies (#[trigger] rest[j]).2 is None by {
                    assert(rest[j] == issues[j + 1]);
                }
            }
        }
    }
}

/// The report of one failed check: `field: ` and its message, or when it has
/// none `Validation error: `, its code and its parameters in brackets.
pub proof fn lemma_one_issue_text(i: Issue)
    ensures
        issues_text(seq![i]) == i.0 + ": "@ + (match i.2 {
            Some(m) => m,
            None => "Validation error: "@ + i.1 + " ["@ + i.3 + "]"@,
        }),
{
}

/// How the parameters of a check read: the bounds it has as numbers, then the
/// value; a check of a string value alone records `{"value": String(..)}`.
pub proof fn lemma_param_texts(min: nat, max: nat, value: Seq<char>, s: Seq<char>)
    ensures
        bound_params(Some(min), Some(max), value) == "{\"min\": Number("@ + decimal(min)
            + "), \"max\": Number("@ + decimal(max) + "), \"value\": "@ + value + "}"@,
        bound_params(Some(min), None, value) == "{\"min\": Number("@ + decimal(min)
            + "), \"value\": "@ + value + "}"@,
        bound_params(None, Some(max), value) == "{\"max\": Number("@ + decimal(max)
            + "), \"value\": "@ + value + "}"@,
        value_params(s) == "{\"value\": String("@ + debug_text(s) + ")}"@,
{
    reveal_strlit("{");
    reveal_strlit("}");
    reveal_strlit("\"");
    reveal_strlit("\": ");
    reveal_strlit(", ");
    reveal_strlit("min");
    reveal_strlit("max");
    reveal_strlit("Number(");
    reveal_strlit(")");
    reveal_strlit("String(");
    reveal_strlit("\"value\": ");
    reveal_strlit("{\"min\": Number(");
    reveal_strlit("), \"max\": Number(");
    reveal_strlit("), \"value\": ");
    reveal_strlit("{\"max\": Number(");
    reveal_strlit("{\"value\": String(");
    reveal_strlit(")}");
    assert(bound_params(Some(min), Some(max), value) =~= "{\"min\": Number("@ + decimal(min)
        + "), \"max\": Number("@ + decimal(max) + "), \"value\": "@ + value + "}"@);
    assert(bound_params(Some(min), None, value) =~= "{\"min\": Number("@ + decimal(min)
        + "), \"value\": "@ + value + "}"@);
    assert(bound_params(None, Some(max), value) =~= "{\"max\": Number("@ + decimal(max)
        + "), \"value\": "@ + value + "}"@);
    assert(value_params(s) =~= "{\"value\": String("@ + debug_text(s) + ")}"@);
}

/// The debug form of one failed check, as validator writes it.
pub proof fn lemma_one_issue_debug(i: Issue)
    ensures
        errors_debug(seq![i]) == "ValidationErrors({"@ + debug_text(i.0)
            + ": Field([ValidationError { code: "@ + debug_text(i.1) + ", message: "@ + (match i.2 {
            Some(m) => "Some("@ + debug_text(m) + ")"@,
            None => "None"@,
        }) + ", params: "@ + i.3 + " }])})"@,
        errors_debug(Seq::empty()) == "ValidationErrors({})"@,
{
    reveal_strlit("ValidationErrors({");
    reveal_strlit("})");
    reveal_strlit("])");
    reveal_strlit(" }");
    reveal_strlit(" }])})");
    reveal_strlit("ValidationErrors({})");
    reveal_strlit(": Field([");
    reveal_strlit("ValidationError { code: ");
    reveal_strlit(": Field([ValidationError { code: ");
    assert(": Field(["@ + "ValidationError { code: "@ =~= ": Field([ValidationError { code: "@);
    assert(" }"@ + "])"@ + "})"@ =~= " }])})"@);
    assert(errors_debug(seq![i]) =~= "ValidationErrors({"@ + debug_text(i.0)
        + ": Field([ValidationError { code: "@ + debug_text(i.1) + ", message: "@ + option_debug(
        i.2,
    ) + ", params: "@ + i.3 + " }])})"@);
    assert(errors_debug(Seq::empty()) =~= "ValidationErrors({})"@);
}

/// Successive reports: a failed check of the field just reported joins its line
/// after `, `; a check of another field starts a new line.
pub proof fn lemma_report_lines(issues: Seq<Issue>, i: Issue)
    requires
        issues.len() > 0,
    ensures
        i.0 == issues.last().0 ==> issues_text(issues.push(i)) == issues_text(issues) + ", "@
            + error_text(i.1, i.2, i.3),
        i.0 != issues.last().0 ==> issues_text(issues.push(i)) == issues_text(issues) + "\n"@
            + i.0 + ": "@ + error_text(i.1, i.2, i.3),
{
    assert(issues.push(i).drop_last() =~= issues);
    assert(issues.push(i)[issues.len() - 1] == issues.last());
}

impl ValidationError {
    pub fn new(code: &str) -> (e: Self)
        ensures
            e@ == (code@, None::<Seq<char>>),
    {
        ValidationError { code: String::from_str(code), message: None }
    }

    pub fn with_message(self, message: &str) -> (e: Self)
        ensures
            e@ == (self.code@, Some(message@)),
    {
        ValidationError { code: self.code, message: Some(String::from_str(message)) }
    }

    pub fn clone_error(&self) -> (e: Self)
        ensures
            e@ == self@,
    {
        let message = match &self.message {
            Some(m) => Some(m.clone()),
            None => None,
        };
        ValidationError { code: self.code.clone(), message }
    }
}

impl ValidationErrors {
    pub fn new() -> (e: Self)
        ensures
            e@ == Seq::<Issue>::empty(),
    {
        ValidationErrors { errors: Vec::new() }
    }

    pub fn is_empty(&self) -> (b: bool)
        ensures
            b == (self@.len() == 0),
    {
        self.errors.len() == 0
    }

    /// Records a failed check on `field`, with no parameters.
    pub fn add(&mut self, field: &str, code: &str, message: Option<&str>)
        ensures
            final(self)@ == old(self)@.push(
                (
                    field@,
                    code@,
                    match message {
                        Some(m) => Some(m@),
                        None => None,
                    },
                    no_params(),
                ),
            ),
    {
        self.push_issue(field, code, message, String::from_str("{}"));
    }

    fn push_issue(&mut self, field: &str, code: &str, message: Option<&str>, params: String)
        ensures
            final(self)@ == old(self)@.push(
                (
                    field@,
                    code@,
                    match message {
                        Some(m) => Some(m@),
                        None => None,
                    },
                    params@,
                ),
            ),
    {
        let message = match message {
            Some(m) => Some(String::from_str(m)),
            None => None,
        };
        let e = FieldError {
            field: String::from_str(field),
            error: ValidationError { code: String::from_str(code), message },
            params,
        };
        self.errors.push(e);
        assert(final(self)@ =~= old(self)@.push(e@));
    }

    /// Records a failed length check when `value` lies outside the bounds.
    pub fn check_length(
        &mut self,
        field: &str,
        value: &str,
        min: Option<u64>,
        max: Option<u64>,
        message: &str,
    )
        ensures
            final(self)@ == old(self)@ + length_issue(
                field@,
                value@,
                opt_nat(min),
                opt_nat(max),
                message@,
            ),
    {
        let n = char_count(value) as u64;
        let too_short = match min {
            Some(m) => n < m,
            None => false,
        };
        let too_long = match max {
            Some(m) => n > m,
            None => false,
        };
        if too_short || too_long {
            let v = string_value_text(value);
            let params = bound_params_text(min, max, v.as_str());
            self.push_issue(field, "length", Some(message), params);
        }
        let ghost expected = length_issue(field@, value@, opt_nat(min), opt_nat(max), message@);
        assert(final(self)@ =~= old(self)@ + expected);
    }

    /// Records a failed range check when `value` lies outside the bounds.
    pub fn check_range(
        &mut self,
        field: &str,
        value: u64,
        min: Option<u64>,
        max: Option<u64>,
        message: Option<&str>,
    )
        ensures
            final(self)@ == old(self)@ + range_issue(
                field@,
                value as nat,
                opt_nat(min),
                opt_nat(max),
                match message {
                    Some(m) => Some(m@),
                    None => None,
                },
            ),
    {
        let too_small = match min {
            Some(m) => value < m,
            None => false,
        };
        let too_large = match max {
            Some(m) => value > m,
            None => false,
        };
        if too_small || too_large {
            let v = number_value_text(value);
            let params = bound_params_text(min, max, v.as_str());
            self.push_issue(field, "range", message, params);
        }
        let ghost expected = range_issue(
            field@,
            value as nat,
            opt_nat(min),
            opt_nat(max),
            match message {
                Some(m) => Some(m@),
                None => None,
            },
        );
        assert(final(self)@ =~= old(self)@ + expected);
    }

    /// Records a failed e-mail check.
    pub fn check_email(&mut self, field: &str, value: &str, message: Option<&str>)
        ensures
            final(self)@ == old(self)@ + value_issue_if(
                !is_email(value@),
                field@,
                "email"@,
                match message {
                    Some(m) => Some(m@),
                    None => None,
                },
                value@,
            ),
    {
        if !check_email(value) {
            let params = value_params_text(value);
            self.push_issue(field, "email", message, params);
        }
        assert(final(self)@ =~= old(self)@ + value_issue_if(
            !is_email(value@),
            field@,
            "email"@,
            match message {
                Some(m) => Some(m@),
                None => None,
            },
            value@,
        ));
    }

    /// Records a failed URL check.
    pub fn check_url(&mut self, field: &str, value: &str, message: Option<&str>)
        ensures
            final(self)@ == old(self)@ + value_issue_if(
                !is_url(value@),
                field@,
                "url"@,
                match message {
                    Some(m) => Some(m@),
                    None => None,
                },
                value@,
            ),
    {
        if !check_url(value) {
            let params = value_params_text(value);
            self.push_issue(field, "url", message, params);
        }
        assert(final(self)@ =~= old(self)@ + value_issue_if(
            !is_url(value@),
            field@,
            "url"@,
            match message {
                Some(m) => Some(m@),
                None => None,
            },
            value@,
        ));
    }

    /// Records what a custom check of `field`, whose value is `value`, reported.
    /// The check's error gains the value as a parameter; the error that the
    /// custom rule returns is taken to carry no parameters of its own.
    pub fn check_custom(&mut self, field: &str, verdict: &Result<(), ValidationError>, value: &str)
        ensures
            final(self)@ == old(self)@ + custom_issue(field@, verdict_view(*verdict), value@),
    {
        match verdict {
            Ok(()) => {
                assert(final(self)@ =~= old(self)@ + custom_issue(
                    field@,
                    verdict_view(*verdict),
                    value@,
                ));
            },
            Err(e) => {
                let e = e.clone_error();
                let fe = FieldError {
                    field: String::from_str(field),
                    error: e,
                    params: value_params_text(value),
                };
                self.errors.push(fe);
                assert(final(self)@ =~= old(self)@ + custom_issue(
                    field@,
                    verdict_view(*verdict),
                    value@,
                ));
            },
        }
    }

    /// `Ok` when no check failed, else the failures.
    pub fn into_result(self) -> (r: Result<(), ValidationErrors>)
        ensures
            r is Ok <==> self@.len() == 0,
            r matches Err(e) ==> e@ == self@,
    {
        if self.is_empty() {
            Ok(())
        } else {
            Err(self)
        }
    }

    /// The report that `Display` of the validator's errors gives: one `field: text`
    /// line per failed check.
    pub fn to_display_string(&self) -> (s: String)
        ensures
            s@ == issues_text(self@),
    {
        let mut s = String::new();
        let n = self.errors.len();
        for i in 0..n
            invariant
                n == self.errors.len(),
                s@ == issues_text(self@.take(i as int)),
        {
            let e = &self.errors[i];
            let same = i > 0 && self.errors[i - 1].field == e.field;
            if same {
                s.append(", ");
            } else {
                if i > 0 {
                    s.append("\n");
                }
                s.append(e.field.as_str());
                s.append(": ");
            }
            let t = error_text_of(e);
            s.append(t.as_str());
            proof {
                assert(self@.take(i + 1).drop_last() =~= self@.take(i as int));
                assert(self@.take(i + 1).last() == e@);
                if i == 0 {
                    assert(self@.take(1)[0] == e@);
                } else {
                    assert(self@.take(i + 1)[i - 1] == self@[i - 1]);
                    assert(self@[i - 1].0 == self.errors@[i - 1].field@);
                }
            }
        }
        assert(self@.take(n as int) =~= self@);
        s
    }

    /// The debug form that validator's `ValidationErrors` gives, field by field
    /// in declaration order.
    pub fn debug_string(&self) -> (s: String)
        ensures
            s@ == errors_debug(self@),
    {
        let mut s = String::new();
        let n = self.errors.len();
        for i in 0..n
            invariant
                n == self.errors.len(),
                s@ == issues_debug(self@.take(i as int)),
        {
            let e = &self.errors[i];
            let same = i > 0 && self.errors[i - 1].field == e.field;
            if same {
                s.append(", ");
                let d = error_debug_text(e);
                s.append(d.as_str());
            } else {
                if i > 0 {
                    s.append("]), ");
                }
                let d = field_open_text(e);
                s.append(d.as_str());
            }
            proof {
                assert(self@.take(i + 1).drop_last() =~= self@.take(i as int));
                assert(self@.take(i + 1).last() == e@);
                if i == 0 {
                    assert(self@.take(1)[0] == e@);
                } else {
                    assert(self@.take(i + 1)[i - 1] == self@[i - 1]);
                    assert(self@[i - 1].0 == self.errors@[i - 1].field@);
                }
            }
        }
        assert(self@.take(n as int) =~= self@);
        let mut r = String::from_str("ValidationErrors({");
        if n > 0 {
            r.append(s.as_str());
            r.append("])");
        }
        r.append("})");
        r
    }

    /// The first message any failed check carries, or `"invalid value"`.
    pub fn first_message(&self) -> (s: String)
        ensures
            s@ == first_message(self@),
    {
        let n = self.errors.len();
        assert(self@.skip(0) =~= self@);
        for i in 0..n
            invariant
                n == self.errors.len(),
                first_message(self@) == first_message(self@.skip(i as int)),
        {
            match &self.errors[i].error.message {
                Some(m) => {
                    return m.clone();
                },
                None => {
                    assert(self@.skip(i as int).drop_first() =~= self@.skip(i + 1));
                },
            }
        }
        String::from_str("invalid value")
    }

    /// The message of the first failed check, or `"invalid value"` when that check has none.
    pub fn leading_message(&self) -> (s: String)
        ensures
            s@ == leading_message(self@),
    {
        if self.errors.len() > 0 {
            match &self.errors[0].error.message {
                Some(m) => {
                    return m.clone();
                },
                None => {},
            }
        }
        String::from_str("invalid value")
    }
}

} // verus!
