use vstd::prelude::*;
use crate::outcome::CheckOutcome;

verus! {

/// The decimal digit that stands for `d`, for `d < 10`.
pub open spec fn digit_char(d: nat) -> char {
    if d == 0 { '0' }
    else if d == 1 { '1' }
    else if d == 2 { '2' }
    else if d == 3 { '3' }
    else if d == 4 { '4' }
    else if d == 5 { '5' }
    else if d == 6 { '6' }
    else if d == 7 { '7' }
    else if d == 8 { '8' }
    else { '9' }
}

/// The decimal numeral of `n`, without leading zeros.
pub open spec fn decimal(n: nat) -> Seq<char>
    decreases n,
{
    if n < 10 {
        seq![digit_char(n)]
    } else {
        decimal(n / 10).push(digit_char(n % 10))
    }
}

/// How an outcome is shown in a report line.
pub open spec fn outcome_label(o: CheckOutcome) -> Seq<char> {
    match o {
        CheckOutcome::Success => "OK(200)"@,
        CheckOutcome::Failure(code) => "ERR("@ + decimal(code as nat) + ")"@,
        CheckOutcome::TransportError => "ERR(transport)"@,
        CheckOutcome::UrlParseError => "URL parsing error"@,
    }
}

/// The line printed after checking `url`.
pub open spec fn report_text(url: Seq<char>, o: CheckOutcome) -> Seq<char> {
    "Checking '"@ + url + "'. Result: "@ + outcome_label(o)
}

/// The message printed when the target is not an HTTP or HTTPS URL.
pub open spec fn fatal_text() -> Seq<char> {
    "URL parsing error"@
}

fn digit_str(d: u16) -> (r: &'static str)
    requires
        d < 10,
    ensures
        r@ == seq![digit_char(d as nat)],
{
    proof {
        reveal_strlit("0");
        reveal_strlit("1");
        reveal_strlit("2");
        reveal_strlit("3");
        reveal_strlit("4");
        reveal_strlit("5");
        reveal_strlit("6");
        reveal_strlit("7");
        reveal_strlit("8");
        reveal_strlit("9");
    }
    let r = match d {
        0 => "0",
        1 => "1",
        2 => "2",
        3 => "3",
        4 => "4",
        5 => "5",
        6 => "6",
        7 => "7",
        8 => "8",
        _ => "9",
    };
    assert(r@ =~= seq![digit_char(d as nat)]);
    r
}

/// Writes `n` in decimal.
pub fn decimal_string(n: u16) -> (r: String)
    ensures
        r@ == decimal(n as nat),
    decreases n,
{
    if n < 10 {
        String::from_str(digit_str(n))
    } else {
        let mut s = decimal_string(n / 10);
        s.append(digit_str(n % 10));
        assert(s@ =~= decimal(n as nat));
        s
    }
}

impl CheckOutcome {
    /// The label of this outcome: `OK(200)`, `ERR(<code>)`,
    /// `ERR(transport)`, or `URL parsing error`.
    pub fn label(&self) -> (r: String)
        ensures
            r@ == outcome_label(*self),
    {
        match self {
            CheckOutcome::Success => String::from_str("OK(200)"),
            CheckOutcome::Failure(code) => {
                let mut s = String::from_str("ERR(");
                let digits = decimal_string(*code);
                s.append(digits.as_str());
                s.append(")");
                s
            },
            CheckOutcome::TransportError => String::from_str("ERR(transport)"),
            CheckOutcome::UrlParseError => String::from_str("URL parsing error"),
        }
    }
}

/// The line reporting the outcome of a check of `url`:
/// `Checking '<url>'. Result: <label>`.
pub fn report_line(url: &str, o: CheckOutcome) -> (r: String)
    ensures
        r@ == report_text(url@, o),
{
    let mut s = String::from_str("Checking '");
    s.append(url);
    s.append("'. Result: ");
    let label = o.label();
    s.append(label.as_str());
    assert(s@ =~= report_text(url@, o));
    s
}

/// The message printed before stopping on a target that is not a URL.
pub fn fatal_message() -> (r: String)
    ensures
        r@ == fatal_text(),
{
    String::from_str("URL parsing error")
}

} // verus!
