//! The runtime values of the worked example language "jex": a closed
//! tagged union of machine integers and shared heap objects.
//!
//! Object instances are reference-counted because they may be referred
//! to from several stack slots at once; no value is ever mutated in
//! place after construction, so sharing is safe.

use std::rc::Rc;

use vstd::prelude::*;

use crate::decimal::{i64_to_decimal, spec_int_decimal};
use crate::exceptions::Exception;

verus! {

/// A heap entity of the jex language. The arithmetic example only
/// needs strings; the full object model is out of scope.
#[derive(Debug, PartialEq, Eq)]
pub enum JexObject {
    String(String),
}

/// A jex runtime value.
#[derive(Debug, PartialEq, Eq)]
pub enum JexValue {
    Int(i64),
    Object(Rc<JexObject>),
}

impl JexValue {
    pub open spec fn spec_is_int(self) -> bool {
        self matches JexValue::Int(_)
    }

    /// The integer carried by an `Int` value.
    pub open spec fn spec_int(self) -> i64 {
        self->Int_0
    }

    /// Every jex object of the current value set is a string.
    pub open spec fn spec_is_string(self) -> bool {
        self matches JexValue::Object(_)
    }

    /// The characters of a string object value.
    pub open spec fn spec_string(self) -> Seq<char> {
        match self {
            JexValue::Object(object) => match *object {
                JexObject::String(text) => text@,
            },
            JexValue::Int(_) => Seq::empty(),
        }
    }

    /// The display form used in diagnostic messages: the decimal
    /// rendering of an integer, the characters of a string.
    pub open spec fn spec_display(self) -> Seq<char> {
        match self {
            JexValue::Int(value) => spec_int_decimal(value as int),
            JexValue::Object(_) => self.spec_string(),
        }
    }

    /// A string value holding `text`.
    pub fn from_string(text: String) -> (value: JexValue)
        ensures
            value.spec_is_string(),
            value.spec_string() == text@,
    {
        JexValue::Object(Rc::new(JexObject::String(text)))
    }

    /// The display form of this value.
    pub fn to_output_string(&self) -> (text: String)
        ensures
            text@ == self.spec_display(),
    {
        match self {
            JexValue::Int(value) => i64_to_decimal(*value),
            JexValue::Object(object) => match &**object {
                JexObject::String(text) => text.clone(),
            },
        }
    }

    /// The integer this value carries; a non-integer is a type error
    /// whose message shows the value's display form.
    pub fn as_int(&self) -> (result: Result<i64, Exception>)
        ensures
            self.spec_is_int() ==> result == Ok::<i64, Exception>(self.spec_int()),
            !self.spec_is_int() ==> (result matches Err(exception) && exception
                matches Exception::TypeError(message) && message@ == "Expected an int value but got "@
                + self.spec_display()),
    {
        match self {
            JexValue::Int(value) => Ok(*value),
            JexValue::Object(_) => {
                let mut message = String::from_str("Expected an int value but got ");
                message.append(self.to_output_string().as_str());
                Err(Exception::TypeError(message))
            },
        }
    }
}

} // verus!
