//! The type-erased parameter store.
//!
//! A parameter holds a value of one of five supported shapes as a tagged
//! union, plus an eagerly maintained canonical text form. Reading tries the
//! stored value first (the cheap path when the requested kind matches) and
//! falls back to reading the canonical form as the requested kind; with
//! this canonical form a read at any other kind fails, because the form
//! names the kind it was written at.

use vstd::prelude::*;

use crate::digits::{
    i64_to_string,
    parse_i64,
    parse_u64,
    spec_dec_digits,
    spec_dec_signed,
    u64_to_string,
};
use crate::error::Error;

verus! {

/// The kind of a parameter value.
#[derive(Debug, Clone, Copy, PartialEq, Eq, Structural)]
pub enum ParamKind {
    /// A text value.
    Str,
    /// A signed integer value.
    Int,
    /// A floating-point value, held as its IEEE-754 bit pattern.
    Float,
    /// A boolean value.
    Bool,
    /// An array of signed integers.
    IntArray,
}

/// A parameter value: a tagged union of the supported shapes. A
/// floating-point value is carried as the bit pattern of an IEEE-754
/// double; this library never interprets it.
#[derive(Debug, PartialEq)]
pub enum ParamValue {
    /// A text value.
    Str(String),
    /// A signed integer value.
    Int(i64),
    /// The bit pattern of an IEEE-754 double.
    Float(u64),
    /// A boolean value.
    Bool(bool),
    /// An array of signed integers.
    IntArray(Vec<i64>),
}

/// The mathematical model of a parameter value.
pub enum ParamModel {
    /// A text value.
    Str(Seq<char>),
    /// A signed integer value.
    Int(int),
    /// The bit pattern of an IEEE-754 double.
    Float(u64),
    /// A boolean value.
    Bool(bool),
    /// An array of signed integers.
    IntArray(Seq<i64>),
}

impl View for ParamValue {
    type V = ParamModel;

    open spec fn view(&self) -> ParamModel {
        match self {
            ParamValue::Str(s) => ParamModel::Str(s@),
            ParamValue::Int(i) => ParamModel::Int(*i as int),
            ParamValue::Float(bits) => ParamModel::Float(*bits),
            ParamValue::Bool(b) => ParamModel::Bool(*b),
            ParamValue::IntArray(v) => ParamModel::IntArray(v@),
        }
    }
}

/// The kind of a parameter model.
pub open spec fn spec_kind_of(m: ParamModel) -> ParamKind {
    match m {
        ParamModel::Str(_) => ParamKind::Str,
        ParamModel::Int(_) => ParamKind::Int,
        ParamModel::Float(_) => ParamKind::Float,
        ParamModel::Bool(_) => ParamKind::Bool,
        ParamModel::IntArray(_) => ParamKind::IntArray,
    }
}

/// The canonical text of the integers of an array, separated by commas.
pub open spec fn spec_canon_ints(s: Seq<i64>) -> Seq<char>
    decreases s.len(),
{
    if s.len() == 0 {
        Seq::empty()
    } else if s.len() == 1 {
        spec_dec_signed(s[0] as int)
    } else {
        spec_canon_ints(s.drop_last()) + seq![','] + spec_dec_signed(s.last() as int)
    }
}

/// The canonical text of a parameter value: a kind tag character, then the
/// payload written in the decimal forms of this crate.
pub open spec fn spec_canon(m: ParamModel) -> Seq<char> {
    match m {
        ParamModel::Str(s) => seq!['s'] + s,
        ParamModel::Int(i) => seq!['i'] + spec_dec_signed(i),
        ParamModel::Float(bits) => seq!['f'] + spec_dec_digits(bits as int),
        ParamModel::Bool(b) => seq!['b'] + (if b {
            ("true")@
        } else {
            ("false")@
        }),
        ParamModel::IntArray(s) => seq!['a'] + spec_canon_ints(s),
    }
}

/// The tag character of a kind.
pub open spec fn spec_kind_tag(kind: ParamKind) -> char {
    match kind {
        ParamKind::Str => 's',
        ParamKind::Int => 'i',
        ParamKind::Float => 'f',
        ParamKind::Bool => 'b',
        ParamKind::IntArray => 'a',
    }
}

/// The canonical text of a value starts with the tag of its kind.
pub proof fn lemma_canon_tag(m: ParamModel)
    ensures
        spec_canon(m).len() >= 1,
        spec_canon(m)[0] == spec_kind_tag(spec_kind_of(m)),
{
}

/// Two values whose canonical texts agree are of the same kind: the
/// canonical form names the kind it was written at.
pub proof fn lemma_canon_kind(m1: ParamModel, m2: ParamModel)
    requires
        spec_canon(m1) == spec_canon(m2),
    ensures
        spec_kind_of(m1) == spec_kind_of(m2),
{
    lemma_canon_tag(m1);
    lemma_canon_tag(m2);
    assert(spec_kind_tag(spec_kind_of(m1)) == spec_kind_tag(spec_kind_of(m2)));
    assert('s' as u32 == 115 && 'i' as u32 == 105 && 'f' as u32 == 102 && 'b' as u32 == 98
        && 'a' as u32 == 97);
}

impl ParamValue {
    /// The kind of the value.
    pub fn kind(&self) -> (r: ParamKind)
        ensures
            r == spec_kind_of(self@),
    {
        match self {
            ParamValue::Str(_) => ParamKind::Str,
            ParamValue::Int(_) => ParamKind::Int,
            ParamValue::Float(_) => ParamKind::Float,
            ParamValue::Bool(_) => ParamKind::Bool,
            ParamValue::IntArray(_) => ParamKind::IntArray,
        }
    }

    /// A copy of the value with the same model.
    pub fn duplicate(&self) -> (r: ParamValue)
        ensures
            r@ == self@,
    {
        match self {
            ParamValue::Str(s) => ParamValue::Str(s.clone()),
            ParamValue::Int(i) => ParamValue::Int(*i),
            ParamValue::Float(bits) => ParamValue::Float(*bits),
            ParamValue::Bool(b) => ParamValue::Bool(*b),
            ParamValue::IntArray(v) => {
                let mut out: Vec<i64> = Vec::new();
                let mut i: usize = 0;
                let n = v.len();
                while i < n
                    invariant
                        0 <= i <= n,
                        n == v@.len(),
                        out@ == v@.take(i as int),
                    decreases n - i,
                {
                    out.push(v[i]);
                    proof {
                        assert(out@ =~= v@.take(i as int + 1));
                    }
                    i = i + 1;
                }
                proof {
                    assert(out@ =~= v@);
                }
                ParamValue::IntArray(out)
            },
        }
    }
}

/// Writes the canonical text of a value.
pub fn canon(value: &ParamValue) -> (r: String)
    ensures
        r@ == spec_canon(value@),
{
    let r = match value {
        ParamValue::Str(s) => {
            let mut out = "s".to_owned();
            out.append(s.as_str());
            out
        },
        ParamValue::Int(i) => {
            let mut out = "i".to_owned();
            let digits = i64_to_string(*i);
            out.append(digits.as_str());
            out
        },
        ParamValue::Float(bits) => {
            let mut out = "f".to_owned();
            let digits = u64_to_string(*bits);
            out.append(digits.as_str());
            out
        },
        ParamValue::Bool(b) => {
            let mut out = "b".to_owned();
            out.append(if *b {
                "true"
            } else {
                "false"
            });
            out
        },
        ParamValue::IntArray(v) => {
            let mut out = "a".to_owned();
            proof {
                reveal_strlit("a");
                assert(out@ =~= seq!['a'] + spec_canon_ints(v@.take(0)));
            }
            let mut i: usize = 0;
            let n = v.len();
            while i < n
                invariant
                    0 <= i <= n,
                    n == v@.len(),
                    out@ == seq!['a'] + spec_canon_ints(v@.take(i as int)),
                decreases n - i,
            {
                if i > 0 {
                    out.append(",");
                }
                let digits = i64_to_string(v[i]);
                out.append(digits.as_str());
                proof {
                    reveal_strlit(",");
                    assert(v@.take(i as int + 1).drop_last() =~= v@.take(i as int));
                    assert(v@.take(i as int + 1).last() == v@[i as int]);
                    if i == 0 {
                        assert(out@ =~= seq!['a'] + spec_canon_ints(v@.take(i as int + 1)));
                    } else {
                        assert(out@ =~= seq!['a'] + spec_canon_ints(v@.take(i as int + 1)));
                    }
                }
                i = i + 1;
            }
            proof {
                assert(v@.take(n as int) =~= v@);
            }
            out
        },
    };
    proof {
        reveal_strlit("s");
        reveal_strlit("i");
        reveal_strlit("f");
        reveal_strlit("b");
        reveal_strlit("a");
        assert(("s")@ =~= seq!['s']);
        assert(("i")@ =~= seq!['i']);
        assert(("f")@ =~= seq!['f']);
        assert(("b")@ =~= seq!['b']);
        assert(("a")@ =~= seq!['a']);
        assert(r@ =~= spec_canon(value@));
    }
    r
}

/// Reads the canonical text as a value of the requested kind. A successful
/// read is exact: the returned value is of the requested kind and writes
/// back the very text that was read. Text written at one kind never reads
/// at another, because the tag characters differ; text written at a scalar
/// kind always reads back at that kind.
pub fn parse_canonical(kind: ParamKind, text: &str) -> (r: Option<ParamValue>)
    ensures
        match r {
            Some(v) => spec_kind_of(v@) == kind && spec_canon(v@) == text@,
            None => true,
        },
        kind == ParamKind::Str && text@.len() >= 1 && text@[0] == 's' ==> r is Some,
        (kind == ParamKind::Int && (exists|i: int|
            i64::MIN <= i <= i64::MAX && text@ == seq!['i'] + spec_dec_signed(i))) ==> r is Some,
        (kind == ParamKind::Float && (exists|b: u64|
            text@ == seq!['f'] + spec_dec_digits(b as int))) ==> r is Some,
        (kind == ParamKind::Bool && (text@ == seq!['b'] + ("true")@ || text@ == seq!['b'] + (
        "false")@)) ==> r is Some,
{
    proof {
        lemma_scalar_canonical_readable(kind, text@);
    }
    let candidate = parse_candidate(kind, text);
    match candidate {
        Some(v) => {
            let back = canon(&v);
            if back == text.to_owned() {
                Some(v)
            } else {
                None
            }
        },
        None => None,
    }
}

/// When the text is the canonical form of a scalar value at the requested
/// kind, the loose read yields exactly that value and writing it back
/// yields exactly the text.
proof fn lemma_scalar_canonical_readable(kind: ParamKind, text: Seq<char>)
    ensures
        kind == ParamKind::Str && text.len() >= 1 && text[0] == 's' ==> seq!['s'] + text.skip(1)
            == text,
        (kind == ParamKind::Int && (exists|i: int|
            i64::MIN <= i <= i64::MAX && text == seq!['i'] + spec_dec_signed(i))) ==> {
            &&& text.len() >= 1
            &&& crate::digits::spec_is_signed_digits(text.skip(1))
            &&& i64::MIN <= crate::digits::spec_signed_value(text.skip(1)) <= i64::MAX
            &&& seq!['i'] + spec_dec_signed(crate::digits::spec_signed_value(text.skip(1)))
                == text
        },
        (kind == ParamKind::Float && (exists|b: u64|
            text == seq!['f'] + spec_dec_digits(b as int))) ==> {
            &&& text.len() >= 1
            &&& text.skip(1).len() > 0
            &&& crate::digits::spec_all_digits(text.skip(1))
            &&& crate::digits::spec_dec_value(text.skip(1)) <= u64::MAX
            &&& seq!['f'] + spec_dec_digits(crate::digits::spec_dec_value(text.skip(1))) == text
        },
        (kind == ParamKind::Bool && (text == seq!['b'] + ("true")@ || text == seq!['b'] + (
        "false")@)) ==> {
            &&& text.len() >= 1
            &&& (text.skip(1) == ("true")@ || text.skip(1) == ("false")@)
            &&& seq!['b'] + text.skip(1) == text
        },
{
    if kind == ParamKind::Str && text.len() >= 1 && text[0] == 's' {
        assert(seq!['s'] + text.skip(1) =~= text);
    }
    if kind == ParamKind::Int && (exists|i: int|
        i64::MIN <= i <= i64::MAX && text == seq!['i'] + spec_dec_signed(i)) {
        let i = choose|i: int|
            i64::MIN <= i <= i64::MAX && text == seq!['i'] + spec_dec_signed(i);
        assert(text.skip(1) =~= spec_dec_signed(i));
        crate::digits::lemma_dec_signed_round_trip(i);
    }
    if kind == ParamKind::Float && (exists|b: u64| text == seq!['f'] + spec_dec_digits(b as int)) {
        let b = choose|b: u64| text == seq!['f'] + spec_dec_digits(b as int);
        assert(text.skip(1) =~= spec_dec_digits(b as int));
        crate::digits::lemma_dec_round_trip(b as int);
        assert(text.skip(1).len() > 0);
    }
    if kind == ParamKind::Bool && (text == seq!['b'] + ("true")@ || text == seq!['b'] + (
    "false")@) {
        if text == seq!['b'] + ("true")@ {
            assert(text.skip(1) =~= ("true")@);
        } else {
            assert(text.skip(1) =~= ("false")@);
        }
        assert(seq!['b'] + text.skip(1) =~= text);
    }
}

/// Reads the payload after the tag; `parse_canonical` checks the result by
/// writing it back. A scalar payload reads exactly; an array payload reads
/// loosely and is pinned by the write-back check alone.
fn parse_candidate(kind: ParamKind, text: &str) -> (r: Option<ParamValue>)
    ensures
        match r {
            Some(v) => spec_kind_of(v@) == kind,
            None => true,
        },
        kind == ParamKind::Str ==> (match r {
            Some(v) => v@ matches ParamModel::Str(c) && text@.len() >= 1 && c == text@.skip(1),
            None => text@.len() == 0,
        }),
        kind == ParamKind::Int ==> (match r {
            Some(v) => v@ matches ParamModel::Int(i) && text@.len() >= 1
                && crate::digits::spec_is_signed_digits(text@.skip(1)) && i
                == crate::digits::spec_signed_value(text@.skip(1)),
            None => text@.len() == 0 || !(crate::digits::spec_is_signed_digits(text@.skip(1))
                && i64::MIN <= crate::digits::spec_signed_value(text@.skip(1)) <= i64::MAX),
        }),
        kind == ParamKind::Float ==> (match r {
            Some(v) => v@ matches ParamModel::Float(b) && text@.len() >= 1 && text@.skip(
                1,
            ).len() > 0 && crate::digits::spec_all_digits(text@.skip(1)) && b
                == crate::digits::spec_dec_value(text@.skip(1)),
            None => text@.len() == 0 || text@.skip(1).len() == 0
                || !crate::digits::spec_all_digits(text@.skip(1))
                || crate::digits::spec_dec_value(text@.skip(1)) > u64::MAX,
        }),
        kind == ParamKind::Bool ==> (match r {
            Some(v) => v@ matches ParamModel::Bool(b) && text@.len() >= 1 && (if b {
                text@.skip(1) == ("true")@
            } else {
                text@.skip(1) == ("false")@
            }),
            None => text@.len() == 0 || (text@.skip(1) != ("true")@ && text@.skip(1) != (
            "false")@),
        }),
{
    let len = text.unicode_len();
    if len == 0 {
        return None;
    }
    let rest = text.substring_char(1, len);
    proof {
        assert(rest@ =~= text@.skip(1));
    }
    match kind {
        ParamKind::Str => Some(ParamValue::Str(rest.to_owned())),
        ParamKind::Int => match parse_i64(rest) {
            Some(i) => Some(ParamValue::Int(i)),
            None => None,
        },
        ParamKind::Float => match parse_u64(rest) {
            Some(bits) => Some(ParamValue::Float(bits)),
            None => None,
        },
        ParamKind::Bool => {
            let rest_owned = rest.to_owned();
            if rest_owned == "true".to_owned() {
                Some(ParamValue::Bool(true))
            } else if rest_owned == "false".to_owned() {
                Some(ParamValue::Bool(false))
            } else {
                None
            }
        },
        ParamKind::IntArray => parse_int_array(rest),
    }
}

/// Reads a comma-separated list of signed integers.
fn parse_int_array(text: &str) -> (r: Option<ParamValue>)
    ensures
        match r {
            Some(v) => v@ matches ParamModel::IntArray(_),
            None => true,
        },
{
    let len = text.unicode_len();
    let mut out: Vec<i64> = Vec::new();
    if len == 0 {
        return Some(ParamValue::IntArray(out));
    }
    let mut start: usize = 0;
    let mut i: usize = 0;
    while i <= len
        invariant
            0 <= start <= i <= len,
            len == text@.len(),
        decreases len - i,
    {
        let at_end = i == len;
        let at_comma = if at_end {
            false
        } else {
            text.get_char(i) as u32 == 44
        };
        if at_end || at_comma {
            let segment = text.substring_char(start, i);
            match parse_i64(segment) {
                Some(v) => out.push(v),
                None => {
                    return None;
                },
            }
            if at_end {
                return Some(ParamValue::IntArray(out));
            }
            start = i + 1;
        }
        i = i + 1;
    }
    Some(ParamValue::IntArray(out))
}

/// A named configuration value: the stored value plus its eagerly
/// maintained canonical text.
#[derive(Debug)]
pub struct Parameter {
    name: String,
    value: ParamValue,
    canonical: String,
}

impl Parameter {
    /// The canonical text always renders the stored value.
    pub closed spec fn wf(&self) -> bool {
        self.canonical@ == spec_canon(self.value@)
    }

    /// The name of the parameter.
    pub closed spec fn spec_name(&self) -> Seq<char> {
        self.name@
    }

    /// The model of the stored value.
    pub closed spec fn spec_value(&self) -> ParamModel {
        self.value@
    }

    /// The kind of the stored value.
    pub open spec fn spec_kind(&self) -> ParamKind {
        spec_kind_of(self.spec_value())
    }

    /// Creates a parameter: stores the value and writes its canonical text.
    pub fn new(name: &str, value: ParamValue) -> (r: Result<Parameter, Error>)
        ensures
            r matches Ok(p) && p.wf() && p.spec_name() == name@ && p.spec_value() == value@,
    {
        let canonical = canon(&value);
        Ok(Parameter { name: name.to_owned(), value, canonical })
    }

    /// The name of the parameter.
    pub fn name(&self) -> (r: &str)
        ensures
            r@ == self.spec_name(),
    {
        self.name.as_str()
    }

    /// Reads the parameter at the requested kind: the stored value when the
    /// kind matches, else a fallback read of the canonical text, which
    /// fails with a `Parameter` error exactly when the kinds differ.
    pub fn get_value(&self, kind: ParamKind) -> (r: Result<ParamValue, Error>)
        requires
            self.wf(),
        ensures
            match r {
                Ok(v) => self.spec_kind() == kind && v@ == self.spec_value(),
                Err(e) => self.spec_kind() != kind && (e matches Error::Parameter {
                    name,
                    reason: _,
                } && name@ == self.spec_name()),
            },
    {
        if self.value.kind() == kind {
            return Ok(self.value.duplicate());
        }
        match parse_canonical(kind, self.canonical.as_str()) {
            Some(v) => {
                proof {
                    lemma_canon_kind(v@, self.value@);
                }
                Ok(v)
            },
            None => Err(
                Error::parameter(self.name.as_str(), "stored value has a different kind"),
            ),
        }
    }

    /// Replaces the stored value and its canonical text together; the two
    /// are never observable out of step.
    pub fn set_value(&mut self, value: ParamValue) -> (r: Result<(), Error>)
        ensures
            r is Ok,
            final(self).wf(),
            final(self).spec_name() == old(self).spec_name(),
            final(self).spec_value() == value@,
    {
        let canonical = canon(&value);
        self.value = value;
        self.canonical = canonical;
        Ok(())
    }
}

} // verus!
