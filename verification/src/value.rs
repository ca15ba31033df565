//! The typed payload carried by one stored entry.

use vstd::prelude::*;
use vstd::string::StringExecFns;
use crate::strutil::{dec_chars, i64_to_string, sdec_chars, u64_to_string};

verus! {

broadcast use vstd::string::group_string_axioms;

/// The payload of an entry: exactly one variant is active at a time.
///
/// Float payloads are held by their IEEE-754 bit patterns, so the store
/// itself never performs floating-point work; the protocol boundary converts
/// between decimal literals and bits.
#[derive(Debug)]
pub enum Value {
    ThinNumber(i8),
    MidNumber(i16),
    LargeNumber(i32),
    /// The bits of an IEEE-754 binary32 value.
    ThinFloat(u32),
    /// The bits of an IEEE-754 binary64 value.
    LargeFloat(u64),
    Text(String),
    Logical(bool),
}

/// Mathematical model of a `Value`: text is a sequence of characters.
#[verifier::ext_equal]
pub enum ValueView {
    ThinNumber(i8),
    MidNumber(i16),
    LargeNumber(i32),
    ThinFloat(u32),
    LargeFloat(u64),
    Text(Seq<char>),
    Logical(bool),
}

impl View for Value {
    type V = ValueView;

    open spec fn view(&self) -> ValueView {
        match self {
            Value::ThinNumber(n) => ValueView::ThinNumber(*n),
            Value::MidNumber(n) => ValueView::MidNumber(*n),
            Value::LargeNumber(n) => ValueView::LargeNumber(*n),
            Value::ThinFloat(b) => ValueView::ThinFloat(*b),
            Value::LargeFloat(b) => ValueView::LargeFloat(*b),
            Value::Text(s) => ValueView::Text(s@),
            Value::Logical(b) => ValueView::Logical(*b),
        }
    }
}

/// The diagnostic text of a value: `<Variant>(<payload>)`. Text shows its
/// characters quoted; a float payload shows the stored bits in decimal.
pub open spec fn sp_render_value(v: ValueView) -> Seq<char> {
    match v {
        ValueView::ThinNumber(n) => "ThinNumber("@ + sdec_chars(n as int) + ")"@,
        ValueView::MidNumber(n) => "MidNumber("@ + sdec_chars(n as int) + ")"@,
        ValueView::LargeNumber(n) => "LargeNumber("@ + sdec_chars(n as int) + ")"@,
        ValueView::ThinFloat(b) => "ThinFloat("@ + dec_chars(b as int) + ")"@,
        ValueView::LargeFloat(b) => "LargeFloat("@ + dec_chars(b as int) + ")"@,
        ValueView::Text(t) => "Text(\""@ + t + "\")"@,
        ValueView::Logical(b) => if b {
            "Logical(true)"@
        } else {
            "Logical(false)"@
        },
    }
}

impl Value {
    /// Renders the diagnostic text `<Variant>(<payload>)`.
    pub fn render(&self) -> (r: String)
        ensures
            r@ == sp_render_value(self@),
    {
        match self {
            Value::ThinNumber(n) => {
                let mut s = "ThinNumber(".to_owned();
                let num = i64_to_string(*n as i64);
                s.append(num.as_str());
                s.append(")");
                proof {
                    assert(s@ =~= sp_render_value(self@));
                }
                s
            },
            Value::MidNumber(n) => {
                let mut s = "MidNumber(".to_owned();
                let num = i64_to_string(*n as i64);
                s.append(num.as_str());
                s.append(")");
                proof {
                    assert(s@ =~= sp_render_value(self@));
                }
                s
            },
            Value::LargeNumber(n) => {
                let mut s = "LargeNumber(".to_owned();
                let num = i64_to_string(*n as i64);
                s.append(num.as_str());
                s.append(")");
                proof {
                    assert(s@ =~= sp_render_value(self@));
                }
                s
            },
            Value::ThinFloat(b) => {
                let mut s = "ThinFloat(".to_owned();
                let num = u64_to_string(*b as u64);
                s.append(num.as_str());
                s.append(")");
                proof {
                    assert(s@ =~= sp_render_value(self@));
                }
                s
            },
            Value::LargeFloat(b) => {
                let mut s = "LargeFloat(".to_owned();
                let num = u64_to_string(*b);
                s.append(num.as_str());
                s.append(")");
                proof {
                    assert(s@ =~= sp_render_value(self@));
                }
                s
            },
            Value::Text(t) => {
                let mut s = "Text(\"".to_owned();
                s.append(t.as_str());
                s.append("\")");
                proof {
                    assert(s@ =~= sp_render_value(self@));
                }
                s
            },
            Value::Logical(b) => {
                if *b {
                    "Logical(true)".to_owned()
                } else {
                    "Logical(false)".to_owned()
                }
            },
        }
    }
}

impl Clone for Value {
    /// A clone carries the same variant and payload.
    fn clone(&self) -> (r: Value)
        ensures
            r@ == self@,
    {
        match self {
            Value::ThinNumber(n) => Value::ThinNumber(*n),
            Value::MidNumber(n) => Value::MidNumber(*n),
            Value::LargeNumber(n) => Value::LargeNumber(*n),
            Value::ThinFloat(b) => Value::ThinFloat(*b),
            Value::LargeFloat(b) => Value::LargeFloat(*b),
            Value::Text(s) => Value::Text(s.clone()),
            Value::Logical(b) => Value::Logical(*b),
        }
    }
}

impl vstd::std_specs::cmp::PartialEqSpecImpl for Value {
    open spec fn obeys_eq_spec() -> bool {
        true
    }

    open spec fn eq_spec(&self, other: &Value) -> bool {
        self@ == other@
    }
}

impl PartialEq for Value {
    /// Equality is structural: the variant tags and their payloads must match.
    fn eq(&self, other: &Value) -> (r: bool) {
        match (self, other) {
            (Value::ThinNumber(a), Value::ThinNumber(b)) => *a == *b,
            (Value::MidNumber(a), Value::MidNumber(b)) => *a == *b,
            (Value::LargeNumber(a), Value::LargeNumber(b)) => *a == *b,
            (Value::ThinFloat(a), Value::ThinFloat(b)) => *a == *b,
            (Value::LargeFloat(a), Value::LargeFloat(b)) => *a == *b,
            (Value::Text(a), Value::Text(b)) => *a == *b,
            (Value::Logical(a), Value::Logical(b)) => *a == *b,
            _ => false,
        }
    }
}

} // verus!
