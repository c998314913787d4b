use vstd::prelude::*;
use vstd::string::*;

verus! {

/// `String::push` of the standard library appends one character: the text afterwards is the text
/// before, followed by `letter`.
pub assume_specification[ String::push ](text: &mut String, letter: char)
    ensures
        final(text)@ == old(text)@.push(letter),
;

/// The character that could not be read as an order.
#[derive(Debug, Clone, Copy, PartialEq, Eq, Structural)]
pub struct InvalidOrder(
    /// the faulty character
    pub char,
);

impl InvalidOrder {
    /// The report on this error: a fixed opening, the faulty character, and a closing quote.
    pub open spec fn message(self) -> Seq<char> {
        "invalid order character '"@.push(self.0) + "'"@
    }

    /// Writes the report on this error, naming the faulty character.
    pub fn to_string(&self) -> (text: String)
        ensures
            text@ == self.message(),
    {
        let mut text = String::from_str("invalid order character '");
        text.push(self.0);
        text.append("'");
        text
    }
}

} // verus!
