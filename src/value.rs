use vstd::prelude::*;

verus! {

/// A value of the scripting language, as it crosses the host boundary.
///
/// A number is carried as the bit pattern of its IEEE-754 double, so that it
/// passes through the library unchanged.
#[derive(Debug, PartialEq)]
pub enum Value {
    Number(u64),
    Bool(bool),
    String(String),
    Null,
    /// Any value of the engine that has no host representation.
    Unsupported,
}

/// What a host value can be read as.
///
/// A host value may be readable in several ways at once; `Value::from_js`
/// decides between them in a fixed order.
#[derive(Debug, PartialEq)]
pub struct HostValue {
    pub null: bool,
    pub undefined: bool,
    /// The bit pattern of the double it reads as, if it is numeric.
    pub number: Option<u64>,
    pub boolean: Option<bool>,
    pub string: Option<String>,
}

/// The host value that holds nothing but the given readings.
pub open spec fn host_value(
    null: bool,
    number: Option<u64>,
    boolean: Option<bool>,
    string: Option<String>,
) -> HostValue {
    HostValue { null, undefined: false, number, boolean, string }
}

/// Whether a value of the language has a host representation.
pub open spec fn has_host_form(v: Value) -> bool {
    !(v is Unsupported)
}

/// The host representation of a value: a number as a number, a boolean as a
/// boolean, a string as a string, and null as null.
pub open spec fn host_form(v: Value) -> HostValue {
    match v {
        Value::Number(n) => host_value(false, Some(n), None, None),
        Value::Bool(b) => host_value(false, None, Some(b), None),
        Value::String(s) => host_value(false, None, None, Some(s)),
        Value::Null => host_value(true, None, None, None),
        Value::Unsupported => host_value(false, None, None, None),
    }
}

/// The value that a host value reads as: null or undefined first, then a
/// number, then a boolean, then a string; anything else has no value.
pub open spec fn value_of_host(h: HostValue) -> Option<Value> {
    if h.null || h.undefined {
        Some(Value::Null)
    } else if let Some(n) = h.number {
        Some(Value::Number(n))
    } else if let Some(b) = h.boolean {
        Some(Value::Bool(b))
    } else if let Some(s) = h.string {
        Some(Value::String(s))
    } else {
        None
    }
}

/// Conversion between a type and its host representation.
pub trait JsConvert: Sized {
    spec fn convertible(&self) -> bool;

    spec fn host_spec(&self) -> HostValue;

    spec fn from_host_spec(js: HostValue) -> Option<Self>;

    fn to_js(&self) -> (r: HostValue)
        requires
            self.convertible(),
        ensures
            r == self.host_spec(),
    ;

    /// `None` where the host value has no counterpart.
    fn from_js(js: HostValue) -> (r: Option<Self>)
        ensures
            r == Self::from_host_spec(js),
    ;
}

impl Value {
    pub fn is_convertible(&self) -> (r: bool)
        ensures
            r == has_host_form(*self),
    {
        !matches!(self, Value::Unsupported)
    }
}

impl JsConvert for Value {
    open spec fn convertible(&self) -> bool {
        has_host_form(*self)
    }

    open spec fn host_spec(&self) -> HostValue {
        host_form(*self)
    }

    open spec fn from_host_spec(js: HostValue) -> Option<Value> {
        value_of_host(js)
    }

    fn to_js(&self) -> (r: HostValue) {
        match self {
            Value::Number(n) => HostValue {
                null: false,
                undefined: false,
                number: Some(*n),
                boolean: None,
                string: None,
            },
            Value::Bool(b) => HostValue {
                null: false,
                undefined: false,
                number: None,
                boolean: Some(*b),
                string: None,
            },
            Value::String(s) => HostValue {
                null: false,
                undefined: false,
                number: None,
                boolean: None,
                string: Some(s.clone()),
            },
            Value::Null => HostValue {
                null: true,
                undefined: false,
                number: None,
                boolean: None,
                string: None,
            },
            Value::Unsupported => HostValue {
                null: false,
                undefined: false,
                number: None,
                boolean: None,
                string: None,
            },
        }
    }

    fn from_js(js: HostValue) -> (r: Option<Value>) {
        let HostValue { null, undefined, number, boolean, string } = js;
        if null || undefined {
            Some(Value::Null)
        } else if let Some(n) = number {
            Some(Value::Number(n))
        } else if let Some(b) = boolean {
            Some(Value::Bool(b))
        } else if let Some(s) = string {
            Some(Value::String(s))
        } else {
            None
        }
    }
}

/// Every value with a host representation is read back from it unchanged.
pub proof fn host_round_trip(v: Value)
    requires
        has_host_form(v),
    ensures
        value_of_host(host_form(v)) == Some(v),
{
}

/// A host value that reads both as a number and as a boolean, and is neither
/// null nor undefined, is taken as the number.
pub proof fn number_before_boolean(h: HostValue)
    requires
        !h.null,
        !h.undefined,
        h.number is Some,
        h.boolean is Some,
    ensures
        value_of_host(h) == Some(Value::Number(h.number->0)),
{
}

} // verus!
