//! Sample declarations: each is small, and each states exactly what it
//! returns or changes.

use vstd::prelude::*;
use vstd::string::StringSliceAdditionalSpecFns;
use vstd::string::StringExecFns;
use crate::decimal::decimal_int;
use crate::decimal::decimal_string;

verus! {

/// Returns the fixed text `"test"`.
pub fn basic_function() -> (r: String)
    ensures
        r@ == "test"@,
{
    "test".to_owned()
}

/// Joins the text and the decimal rendering of the number with an underscore.
pub fn function_with_params(param1: &str, param2: i32) -> (r: String)
    ensures
        r@ == param1@ + seq!['_'] + decimal_int(param2 as int),
{
    let mut r = param1.to_owned();
    r.append("_");
    let rendered = decimal_string(param2);
    r.append(rendered.as_str());
    proof {
        reveal_strlit("_");
        assert(r@ =~= param1@ + seq!['_'] + decimal_int(param2 as int));
    }
    r
}

/// Prefixes the given rendering of a value with `"Value: "`.
pub fn generic_function(input: &str) -> (r: String)
    ensures
        r@ == "Value: "@ + input@,
{
    let mut r = "Value: ".to_owned();
    r.append(input);
    r
}

pub fn undocumented_function() -> (r: bool)
    ensures
        r == true,
{
    true
}

/// Returns how many entries the given vector holds.
pub fn public_function(data: Vec<String>) -> (r: usize)
    ensures
        r == data@.len(),
{
    data.len()
}

/// Returns the byte length of a non-empty input, and an error on an empty one.
pub fn error_handling_function(input: &str) -> (r: Result<usize, &'static str>)
    ensures
        input@.len() == 0 <==> r is Err,
        r is Err ==> r->Err_0@ == "Input cannot be empty"@,
        r is Ok ==> r->Ok_0 == input.spec_bytes().len() as usize,
{
    if input.is_empty() {
        Err("Input cannot be empty")
    } else {
        Ok(input.len())
    }
}

/// Returns the sum of its two arguments; the caller keeps the sum in range.
pub fn const_function(x: i32, y: i32) -> (r: i32)
    requires
        i32::MIN <= x + y <= i32::MAX,
    ensures
        r == x + y,
{
    x + y
}

/// A record holding one text value.
pub struct TestStruct {
    value: String,
}

impl View for TestStruct {
    type V = Seq<char>;

    closed spec fn view(&self) -> Seq<char> {
        self.value@
    }
}

impl TestStruct {
    /// Makes a record holding the given text.
    pub fn new(value: String) -> (r: Self)
        ensures
            r@ == value@,
    {
        Self { value }
    }

    /// Returns the held text.
    pub fn get_value(&self) -> (r: &str)
        ensures
            r@ == self@,
    {
        self.value.as_str()
    }

    pub fn undocumented_method(&mut self, new_value: String)
        ensures
            final(self)@ == new_value@,
    {
        self.value = new_value;
    }

    /// Replaces the held text and returns a view of the new text.
    pub fn update_value(&mut self, new_value: String) -> (r: &str)
        ensures
            final(self)@ == new_value@,
            r@ == new_value@,
    {
        self.value = new_value;
        self.value.as_str()
    }
}

/// A capability with one operation: rendering the implementor as text.
pub trait TestTrait {
    /// What the rendering is, for this implementor.
    spec fn rendered(&self) -> Seq<char>;

    /// Renders the implementor as text.
    fn trait_method(&self) -> (r: String)
        ensures
            r@ == self.rendered(),
    ;
}

impl TestTrait for TestStruct {
    open spec fn rendered(&self) -> Seq<char> {
        "Trait: "@ + self@
    }

    fn trait_method(&self) -> (r: String) {
        let mut r = "Trait: ".to_owned();
        r.append(self.value.as_str());
        r
    }
}

} // verus!
