//! A closed set of values with a readable name for each.
use vstd::prelude::*;
use vstd::string::StringExecFns;

verus! {

#[derive(Clone, Copy, Debug, PartialEq, Eq, Structural)]
pub enum SomeValue {
    One,
    Two,
    Three,
    Four,
    Five,
}

impl SomeValue {
    /// The readable name: the value's number, a colon, and its word.
    pub open spec fn label(self) -> Seq<char> {
        match self {
            SomeValue::One => "1: one"@,
            SomeValue::Two => "2: two"@,
            SomeValue::Three => "3: three"@,
            SomeValue::Four => "4: four"@,
            SomeValue::Five => "5: five"@,
        }
    }

    pub fn to_string(&self) -> (r: String)
        ensures
            r@ == self.label(),
    {
        let s = match self {
            SomeValue::One => "1: one",
            SomeValue::Two => "2: two",
            SomeValue::Three => "3: three",
            SomeValue::Four => "4: four",
            SomeValue::Five => "5: five",
        };
        String::from_str(s)
    }
}

/// The readable name of `input`.
pub fn get_some_value_name(input: SomeValue) -> (r: String)
    ensures
        r@ == input.label(),
{
    input.to_string()
}

} // verus!
