//! How feature configuration lives in NVS flash: which feature names may own
//! a namespace, how values are encoded, and which problems a read reports.
use vstd::prelude::*;
use vstd::string::*;

use crate::text;

verus! {

/// The namespace that records which features are enabled.
pub const FEATURE_NAMESPACE_NAME: &'static str = "feature";

/// Namespaces that features other than the built-in ones may not use: the
/// core feature's, the enable flags', and those of the Wi-Fi driver.
pub open spec fn is_reserved_feature_name(name: Seq<char>) -> bool {
    ||| name == "core"@
    ||| name == FEATURE_NAMESPACE_NAME@
    ||| name == "wifi"@
    ||| name == "phy"@
    ||| name == "bt_config"@
    ||| name == "nvs.net80211"@
}

/// A configuration value: a string with its capacity in bytes, a 32- or
/// 64-bit integer, a flag, a time zone (by the name the platform writes for
/// it) or a cron schedule (by its pattern); each may be absent where the
/// kind allows it.
#[derive(Debug)]
pub enum TypedValue {
    String(usize, Option<String>),
    Int32(Option<i32>),
    Int64(Option<i64>),
    Bool(bool),
    TimeZone(String),
    Cron(Option<String>),
}

/// A configuration value as data.
pub enum TypedValueView {
    String(usize, Option<Seq<char>>),
    Int32(Option<i32>),
    Int64(Option<i64>),
    Bool(bool),
    TimeZone(Seq<char>),
    Cron(Option<Seq<char>>),
}

pub open spec fn opt_view(o: Option<String>) -> Option<Seq<char>> {
    match o {
        Some(s) => Some(s@),
        None => None,
    }
}

impl TypedValue {
    pub open spec fn view(&self) -> TypedValueView {
        match self {
            TypedValue::String(n, s) => TypedValueView::String(*n, opt_view(*s)),
            TypedValue::Int32(v) => TypedValueView::Int32(*v),
            TypedValue::Int64(v) => TypedValueView::Int64(*v),
            TypedValue::Bool(b) => TypedValueView::Bool(*b),
            TypedValue::TimeZone(z) => TypedValueView::TimeZone(z@),
            TypedValue::Cron(p) => TypedValueView::Cron(opt_view(*p)),
        }
    }
}

/// Why the configuration store refused a request.
#[derive(Debug)]
pub enum ConfigStoreError {
    /// A feature asked for a namespace that is reserved.
    ReservedName(String),
    /// The value to save is absent.
    InvalidValue(String),
}

/// May a feature with this name own a configuration namespace? Built-in
/// (internal) features may use any name, others none of the reserved ones.
pub fn check_feature_name(feature_name: &str, internal: bool) -> (r: Result<(), ConfigStoreError>)
    ensures
        r is Ok <==> (internal || !is_reserved_feature_name(feature_name@)),
        r is Err ==> (r matches Err(ConfigStoreError::ReservedName(n)) && n@ == feature_name@),
{
    if internal {
        return Ok(());
    }
    let reserved = text::str_equal(feature_name, "core") || text::str_equal(feature_name, FEATURE_NAMESPACE_NAME)
        || text::str_equal(feature_name, "wifi") || text::str_equal(feature_name, "phy")
        || text::str_equal(feature_name, "bt_config") || text::str_equal(feature_name, "nvs.net80211");
    if reserved {
        Err(ConfigStoreError::ReservedName(feature_name.to_owned()))
    } else {
        Ok(())
    }
}

/// What a read from NVS gave.
#[derive(Debug)]
pub enum NvsRead {
    /// A value was stored.
    Found,
    /// No value is stored under the name.
    Missing,
    /// The read failed with this error text.
    Failed(String),
}

/// What to record with the problem manager about one configuration value.
#[derive(Debug)]
pub enum ProblemUpdate {
    /// Record (or replace) the value's problem with this message.
    Raise(String),
    /// The value has no problem.
    Clear,
}

/// The problem a read leaves: a missing required value and a failed read
/// are problems, anything else clears the value's problem.
pub open spec fn read_problem_spec(name: Seq<char>, read: NvsRead, required: bool) -> Option<Seq<char>> {
    match read {
        NvsRead::Found => None,
        NvsRead::Missing => if required {
            Some("Required value "@ + name + " is missing"@)
        } else {
            None
        },
        NvsRead::Failed(e) => Some("NVS error reading "@ + name + ": "@ + e@),
    }
}

/// The problem update after reading the value `name`.
pub fn read_problem(name: &str, read: &NvsRead, required: bool) -> (u: ProblemUpdate)
    ensures
        match read_problem_spec(name@, *read, required) {
            Some(m) => u matches ProblemUpdate::Raise(s) && s@ == m,
            None => u is Clear,
        },
{
    match read {
        NvsRead::Found => ProblemUpdate::Clear,
        NvsRead::Missing => if required {
            let mut m = "Required value ".to_owned();
            m.append(name);
            m.append(" is missing");
            ProblemUpdate::Raise(m)
        } else {
            ProblemUpdate::Clear
        },
        NvsRead::Failed(e) => {
            let mut m = "NVS error reading ".to_owned();
            m.append(name);
            m.append(": ");
            m.append(e.as_str());
            ProblemUpdate::Raise(m)
        },
    }
}

/// What `croner::Cron::from_str` makes of a pattern: the text of the parsed
/// schedule (`Cron::as_str`, the pattern as croner normalised it), or the
/// text of its error (through `Display`).
pub uninterp spec fn cron_parse(pattern: Seq<char>) -> Result<Seq<char>, Seq<char>>;

/// `croner::Cron::from_str`, read out as the parsed schedule's text or the
/// error's text. An empty pattern is refused as empty; the rest is named,
/// not stated.
#[verifier::external_body]
fn parse_cron(pattern: &str) -> (r: Result<String, String>)
    ensures
        match r {
            Ok(p) => cron_parse(pattern@) == Ok::<Seq<char>, Seq<char>>(p@),
            Err(e) => cron_parse(pattern@) == Err::<Seq<char>, Seq<char>>(e@),
        },
        pattern@.len() == 0 ==> r is Err && r->Err_0@ == "CronPattern cannot be an empty string."@,
{
    match <croner::Cron as core::str::FromStr>::from_str(pattern) {
        Ok(c) => Ok(c.as_str().to_string()),
        Err(e) => Err(e.to_string()),
    }
}

/// A stored cron pattern as it is loaded: the schedule croner parses from it
/// (and the value's problem cleared), else nothing, with the parse error as
/// problem.
pub fn load_cron(name: &str, pattern: &str) -> (res: (Option<String>, ProblemUpdate))
    ensures
        match cron_parse(pattern@) {
            Ok(p) => (res.0 matches Some(q) && q@ == p) && res.1 is Clear,
            Err(e) => res.0 is None && (res.1 matches ProblemUpdate::Raise(m) && m@ == "NVS error reading "@ + name@ + ": "@ + e),
        },
{
    match parse_cron(pattern) {
        Ok(p) => (Some(p), ProblemUpdate::Clear),
        Err(e) => {
            let mut m = "NVS error reading ".to_owned();
            m.append(name);
            m.append(": ");
            m.append(e.as_str());
            (None, ProblemUpdate::Raise(m))
        },
    }
}

/// A flag as NVS stores it: one byte, 1 for true and 0 for false.
pub open spec fn encoded_bool(b: bool) -> u8 {
    if b {
        1u8
    } else {
        0u8
    }
}

/// A flag as it is loaded: true for any stored non-zero byte.
pub open spec fn decoded_bool(stored: Option<u8>) -> bool {
    stored matches Some(v) && v != 0
}

/// A flag as NVS stores it.
pub fn encode_bool(b: bool) -> (v: u8)
    ensures
        v == encoded_bool(b),
{
    if b {
        1
    } else {
        0
    }
}

/// A flag as it is loaded: true for any stored non-zero byte, false for zero
/// or when nothing is stored.
pub fn decode_bool(stored: Option<u8>) -> (b: bool)
    ensures
        b == decoded_bool(stored),
{
    match stored {
        Some(v) => v != 0,
        None => false,
    }
}

/// The size of the buffer a string value of capacity `len` is read into: one
/// more byte for the terminating NUL.
pub fn string_read_buffer_len(len: usize) -> (n: usize)
    requires
        len < usize::MAX,
    ensures
        n == len + 1,
{
    len + 1
}

/// How a value is written to NVS.
#[derive(Debug)]
pub enum NvsWrite {
    Str(String),
    I32(i32),
    I64(i64),
    U8(u8),
}

/// The datum a value is written as, or nothing for an absent value.
pub open spec fn stored_form_spec(v: TypedValueView) -> Option<NvsWriteView> {
    match v {
        TypedValueView::String(_, Some(s)) => Some(NvsWriteView::Str(s)),
        TypedValueView::Int32(Some(x)) => Some(NvsWriteView::I32(x)),
        TypedValueView::Int64(Some(x)) => Some(NvsWriteView::I64(x)),
        TypedValueView::Bool(b) => Some(NvsWriteView::U8(if b { 1u8 } else { 0u8 })),
        TypedValueView::TimeZone(z) => Some(NvsWriteView::Str(z)),
        TypedValueView::Cron(Some(p)) => Some(NvsWriteView::Str(p)),
        _ => None,
    }
}

/// How each value is written: strings, time zones and cron patterns as text,
/// integers as such, flags as one byte; an absent value cannot be saved.
pub fn stored_form(name: &str, value: &TypedValue) -> (w: Result<NvsWrite, ConfigStoreError>)
    ensures
        match *value {
            TypedValue::String(_, Some(s)) => w matches Ok(NvsWrite::Str(t)) && t@ == s@,
            TypedValue::Int32(Some(v)) => w matches Ok(NvsWrite::I32(x)) && x == v,
            TypedValue::Int64(Some(v)) => w matches Ok(NvsWrite::I64(x)) && x == v,
            TypedValue::Bool(b) => w matches Ok(NvsWrite::U8(x)) && x == (if b { 1u8 } else { 0u8 }),
            TypedValue::TimeZone(z) => w matches Ok(NvsWrite::Str(t)) && t@ == z@,
            TypedValue::Cron(Some(p)) => w matches Ok(NvsWrite::Str(t)) && t@ == p@,
            _ => w matches Err(ConfigStoreError::InvalidValue(n)) && n@ == name@,
        },
        match stored_form_spec(value.view()) {
            Some(d) => w matches Ok(x) && x.view() == d,
            None => w is Err,
        },
{
    match value {
        TypedValue::String(_, Some(s)) => Ok(NvsWrite::Str(s.clone())),
        TypedValue::Int32(Some(v)) => Ok(NvsWrite::I32(*v)),
        TypedValue::Int64(Some(v)) => Ok(NvsWrite::I64(*v)),
        TypedValue::Bool(b) => Ok(NvsWrite::U8(encode_bool(*b))),
        TypedValue::TimeZone(z) => Ok(NvsWrite::Str(z.clone())),
        TypedValue::Cron(Some(p)) => Ok(NvsWrite::Str(p.clone())),
        _ => Err(ConfigStoreError::InvalidValue(name.to_owned())),
    }
}

/// A stored datum as data.
pub enum NvsWriteView {
    Str(Seq<char>),
    I32(i32),
    I64(i64),
    U8(u8),
}

impl NvsWrite {
    pub open spec fn view(&self) -> NvsWriteView {
        match self {
            NvsWrite::Str(s) => NvsWriteView::Str(s@),
            NvsWrite::I32(v) => NvsWriteView::I32(*v),
            NvsWrite::I64(v) => NvsWriteView::I64(*v),
            NvsWrite::U8(v) => NvsWriteView::U8(*v),
        }
    }
}

/// The value a load gives, for a value of the kind of `current`, from what the
/// read returned (`Ok(None)` when nothing is stored, `Err` when the read
/// failed): a string, integer or pattern is present exactly when one was read
/// (a pattern as croner parses it, and only when it does), a flag is true exactly when a
/// non-zero byte was read. A datum of another kind than the value's counts as
/// nothing stored.
pub open spec fn loaded_value_spec(current: TypedValueView, read: Result<Option<NvsWriteView>, Seq<char>>) -> TypedValueView {
    let datum = match read {
        Ok(Some(d)) => Some(d),
        _ => None,
    };
    match current {
        TypedValueView::String(n, _) => TypedValueView::String(n, match datum {
            Some(NvsWriteView::Str(s)) => Some(s),
            _ => None,
        }),
        TypedValueView::Int32(_) => TypedValueView::Int32(match datum {
            Some(NvsWriteView::I32(v)) => Some(v),
            _ => None,
        }),
        TypedValueView::Int64(_) => TypedValueView::Int64(match datum {
            Some(NvsWriteView::I64(v)) => Some(v),
            _ => None,
        }),
        TypedValueView::Bool(_) => TypedValueView::Bool(match datum {
            Some(NvsWriteView::U8(v)) => v != 0,
            _ => false,
        }),
        TypedValueView::TimeZone(z) => TypedValueView::TimeZone(z),
        TypedValueView::Cron(_) => TypedValueView::Cron(match datum {
            Some(NvsWriteView::Str(p)) => match cron_parse(p) {
                Ok(q) => Some(q),
                Err(_) => None,
            },
            _ => None,
        }),
    }
}

/// A stored datum is of the kind that a value of the kind of `current` is stored as.
pub open spec fn datum_fits(current: TypedValueView, d: NvsWriteView) -> bool {
    match (current, d) {
        (TypedValueView::String(_, _), NvsWriteView::Str(_)) => true,
        (TypedValueView::Int32(_), NvsWriteView::I32(_)) => true,
        (TypedValueView::Int64(_), NvsWriteView::I64(_)) => true,
        (TypedValueView::Bool(_), NvsWriteView::U8(_)) => true,
        (TypedValueView::TimeZone(_), NvsWriteView::Str(_)) => true,
        (TypedValueView::Cron(_), NvsWriteView::Str(_)) => true,
        _ => false,
    }
}

/// Loads a value of the kind of `current` (other than a time zone, whose
/// parsing belongs to the platform) from what the read returned. The first
/// problem update reflects the read; a stored cron pattern adds a second one
/// that reflects its parse.
pub fn load_value(name: &str, current: &TypedValue, required: bool, read: Result<Option<NvsWrite>, String>) -> (res: (TypedValue, Vec<ProblemUpdate>))
    requires
        !(current is TimeZone),
    ensures
        res.0.view() == loaded_value_spec(
            current.view(),
            match read {
                Ok(Some(d)) => Ok(Some(d.view())),
                Ok(None) => Ok(None),
                Err(e) => Err(e@),
            },
        ),
        res.1@.len() >= 1,
        ({
            let r = match read {
                Ok(Some(d)) => if datum_fits(current.view(), d.view()) {
                    NvsRead::Found
                } else {
                    NvsRead::Missing
                },
                Ok(None) => NvsRead::Missing,
                Err(e) => NvsRead::Failed(e),
            };
            match read_problem_spec(name@, r, required) {
                Some(m) => res.1@[0] matches ProblemUpdate::Raise(s) && s@ == m,
                None => res.1@[0] is Clear,
            }
        }),
        (current is Cron && read matches Ok(Some(NvsWrite::Str(p)))) ==> res.1@.len() == 2 && match cron_parse(read->Ok_0->Some_0->Str_0@) {
            Ok(_) => res.1@[1] is Clear,
            Err(e) => res.1@[1] matches ProblemUpdate::Raise(m) && m@ == "NVS error reading "@ + name@ + ": "@ + e,
        },
        !(current is Cron && read matches Ok(Some(NvsWrite::Str(p)))) ==> res.1@.len() == 1,
{
    let outcome = match &read {
        Ok(Some(d)) => {
            let fits = match (current, d) {
                (TypedValue::String(_, _), NvsWrite::Str(_)) => true,
                (TypedValue::Int32(_), NvsWrite::I32(_)) => true,
                (TypedValue::Int64(_), NvsWrite::I64(_)) => true,
                (TypedValue::Bool(_), NvsWrite::U8(_)) => true,
                (TypedValue::TimeZone(_), NvsWrite::Str(_)) => true,
                (TypedValue::Cron(_), NvsWrite::Str(_)) => true,
                _ => false,
            };
            if fits {
                NvsRead::Found
            } else {
                NvsRead::Missing
            }
        },
        Ok(None) => NvsRead::Missing,
        Err(e) => NvsRead::Failed(e.clone()),
    };
    let mut problems: Vec<ProblemUpdate> = Vec::new();
    problems.push(read_problem(name, &outcome, required));
    let datum: Option<NvsWrite> = match read {
        Ok(Some(d)) => Some(d),
        _ => None,
    };
    let value = match current {
        TypedValue::String(n, _) => TypedValue::String(*n, match datum {
            Some(NvsWrite::Str(s)) => Some(s),
            _ => None,
        }),
        TypedValue::Int32(_) => TypedValue::Int32(match datum {
            Some(NvsWrite::I32(v)) => Some(v),
            _ => None,
        }),
        TypedValue::Int64(_) => TypedValue::Int64(match datum {
            Some(NvsWrite::I64(v)) => Some(v),
            _ => None,
        }),
        TypedValue::Bool(_) => TypedValue::Bool(match datum {
            Some(NvsWrite::U8(v)) => decode_bool(Some(v)),
            _ => false,
        }),
        TypedValue::TimeZone(z) => TypedValue::TimeZone(z.clone()),
        TypedValue::Cron(_) => TypedValue::Cron(match datum {
            Some(NvsWrite::Str(p)) => {
                let (c, u) = load_cron(name, p.as_str());
                problems.push(u);
                c
            },
            _ => None,
        }),
    };
    (value, problems)
}

/// A value is absent when the kind allows absence and nothing is set.
pub open spec fn is_absent(v: TypedValueView) -> bool {
    match v {
        TypedValueView::String(_, None) => true,
        TypedValueView::Int32(None) => true,
        TypedValueView::Int64(None) => true,
        TypedValueView::Cron(None) => true,
        _ => false,
    }
}

fn opt_str_equal(a: &Option<String>, b: &Option<String>) -> (r: bool)
    ensures
        r == (opt_view(*a) == opt_view(*b)),
{
    match (a, b) {
        (Some(x), Some(y)) => text::str_equal(x.as_str(), y.as_str()),
        (None, None) => true,
        _ => false,
    }
}

/// Does a newly submitted value have to be written? Only when the current
/// value is absent or differs from it.
pub fn needs_save(current: &TypedValue, new_value: &TypedValue) -> (b: bool)
    ensures
        b == (is_absent(current.view()) || current.view() != new_value.view()),
{
    match (current, new_value) {
        (TypedValue::String(n, a), TypedValue::String(m, c)) => {
            a.is_none() || *n != *m || !opt_str_equal(a, c)
        },
        (TypedValue::Int32(a), TypedValue::Int32(c)) => match (a, c) {
            (Some(x), Some(y)) => *x != *y,
            _ => true,
        },
        (TypedValue::Int64(a), TypedValue::Int64(c)) => match (a, c) {
            (Some(x), Some(y)) => *x != *y,
            _ => true,
        },
        (TypedValue::Bool(a), TypedValue::Bool(c)) => *a != *c,
        (TypedValue::TimeZone(a), TypedValue::TimeZone(c)) => !text::str_equal(a.as_str(), c.as_str()),
        (TypedValue::Cron(a), TypedValue::Cron(c)) => a.is_none() || !opt_str_equal(a, c),
        _ => true,
    }
}

/// The time zone name a load gives from what the read returned: the stored
/// text, or nothing (the platform's default, UTC) when no text is stored or
/// the read failed.
pub open spec fn loaded_time_zone_name(read: Result<Option<NvsWriteView>, Seq<char>>) -> Option<Seq<char>> {
    match read {
        Ok(Some(NvsWriteView::Str(z))) => Some(z),
        _ => None,
    }
}

/// Loads a time zone value from what the read returned: the stored name,
/// which the platform then parses (an unknown name, like no name, reads as
/// UTC), and the problem update that reflects the read.
pub fn load_time_zone_name(name: &str, required: bool, read: Result<Option<NvsWrite>, String>) -> (res: (
    Option<String>,
    ProblemUpdate,
))
    ensures
        opt_view(res.0) == loaded_time_zone_name(
            match read {
                Ok(Some(d)) => Ok(Some(d.view())),
                Ok(None) => Ok(None),
                Err(e) => Err(e@),
            },
        ),
        ({
            let r = match read {
                Ok(Some(NvsWrite::Str(_))) => NvsRead::Found,
                Ok(_) => NvsRead::Missing,
                Err(e) => NvsRead::Failed(e),
            };
            match read_problem_spec(name@, r, required) {
                Some(m) => res.1 matches ProblemUpdate::Raise(s) && s@ == m,
                None => res.1 is Clear,
            }
        }),
{
    match read {
        Ok(Some(NvsWrite::Str(z))) => (Some(z), read_problem(name, &NvsRead::Found, required)),
        Ok(_) => (None, read_problem(name, &NvsRead::Missing, required)),
        Err(e) => (None, read_problem(name, &NvsRead::Failed(e), required)),
    }
}

/// A saved time zone loads back under the name it was saved with.
pub proof fn law_saved_time_zone_loads_back(z: Seq<char>)
    ensures
        loaded_time_zone_name(Ok(stored_form_spec(TypedValueView::TimeZone(z)))) == Some(z),
{
}

/// What is saved loads back: a present value (other than a time zone), once
/// written, is read back as the same value; a cron pattern provided croner
/// accepts it and keeps its text as it is.
pub proof fn law_saved_value_loads_back(v: TypedValueView)
    requires
        !(v is TimeZone),
        stored_form_spec(v) is Some,
        v matches TypedValueView::Cron(Some(p)) ==> cron_parse(p) == Ok::<Seq<char>, Seq<char>>(p),
    ensures
        loaded_value_spec(v, Ok(stored_form_spec(v))) == v,
{
}

/// A loaded flag is true exactly when the read found a non-zero byte: a flag
/// with nothing stored (as on first boot), with a failed read or with a
/// datum of another kind loads as false, whatever it held before.
pub proof fn law_flag_true_exactly_when_nonzero_byte_read(
    b: bool,
    read: Result<Option<NvsWriteView>, Seq<char>>,
)
    ensures
        loaded_value_spec(TypedValueView::Bool(b), read) == TypedValueView::Bool(
            read matches Ok(Some(NvsWriteView::U8(v))) && v != 0,
        ),
        loaded_value_spec(TypedValueView::Bool(b), Ok(None)) == TypedValueView::Bool(false),
{
}

/// A value with nothing stored under its name, or whose read failed, loads as
/// absent (a flag as false), keeping only its kind and string capacity.
pub proof fn law_nothing_read_loads_absent(current: TypedValueView, read: Result<Option<NvsWriteView>, Seq<char>>)
    requires
        !(current is TimeZone),
        read matches Ok(None) || read is Err,
    ensures
        ({
            let v = loaded_value_spec(current, read);
            match current {
                TypedValueView::String(n, _) => v == TypedValueView::String(n, None),
                TypedValueView::Int32(_) => v == TypedValueView::Int32(None),
                TypedValueView::Int64(_) => v == TypedValueView::Int64(None),
                TypedValueView::Bool(_) => v == TypedValueView::Bool(false),
                TypedValueView::Cron(_) => v == TypedValueView::Cron(None),
                TypedValueView::TimeZone(_) => true,
            }
        }),
{
}

/// A flag reads back as written.
pub proof fn law_bool_roundtrip(b: bool)
    ensures
        decoded_bool(Some(encoded_bool(b))) == b,
{
}

/// The problem left when a value is removed: a required value is then missing.
pub fn removal_problem(name: &str, required: bool) -> (p: Option<String>)
    ensures
        required ==> (p matches Some(m) && m@ == "Required value "@ + name@ + " removed"@),
        !required ==> p is None,
{
    if required {
        let mut m = "Required value ".to_owned();
        m.append(name);
        m.append(" removed");
        Some(m)
    } else {
        None
    }
}

} // verus!
