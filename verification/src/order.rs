use vstd::prelude::*;
use vstd::string::*;
use vstd::utf8::*;

use crate::error::InvalidOrder;

verus! {

/// One command that the robot understands.
#[derive(Debug, Copy, Clone, PartialEq, Eq, Structural)]
pub enum Order {
    MoveForward,
    TurnLeft,
    TurnRight,
}

impl Order {
    /// What a letter means: `F`, `R` and `L` are orders, in upper case only; any other
    /// character is an error that carries that character.
    pub open spec fn parse(letter: char) -> Result<Order, InvalidOrder> {
        if letter == 'F' {
            Ok(Order::MoveForward)
        } else if letter == 'R' {
            Ok(Order::TurnRight)
        } else if letter == 'L' {
            Ok(Order::TurnLeft)
        } else {
            Err(InvalidOrder(letter))
        }
    }

    /// The words that describe an order to a reader.
    pub open spec fn description(self) -> Seq<char> {
        match self {
            Order::MoveForward => "move forward"@,
            Order::TurnLeft => "turn left"@,
            Order::TurnRight => "turn right"@,
        }
    }

    /// Describes the order in words.
    pub fn to_string(&self) -> (text: String)
        ensures
            text@ == self.description(),
    {
        match self {
            Order::MoveForward => String::from_str("move forward"),
            Order::TurnLeft => String::from_str("turn left"),
            Order::TurnRight => String::from_str("turn right"),
        }
    }
}

/// Reads one letter as an order.
impl TryFrom<char> for Order {
    type Error = InvalidOrder;

    fn try_from(letter: char) -> (outcome: Result<Self, Self::Error>)
        ensures
            outcome == Order::parse(letter),
            letter != 'F' && letter != 'R' && letter != 'L' ==> outcome == Err::<Order, InvalidOrder>(
                InvalidOrder(letter),
            ),
    {
        match letter {
            'F' => Ok(Order::MoveForward),
            'R' => Ok(Order::TurnRight),
            'L' => Ok(Order::TurnLeft),
            l => Err(InvalidOrder(l)),
        }
    }
}

impl vstd::std_specs::convert::TryFromSpecImpl<char> for Order {
    open spec fn obeys_try_from_spec() -> bool {
        true
    }

    open spec fn try_from_spec(letter: char) -> Result<Self, Self::Error> {
        Order::parse(letter)
    }
}

/// Takes the first character off a text, in constant time: `None` for the empty text, else the
/// character and what follows it.
fn split_first_letter<'a>(text: &'a str) -> (parts: Option<(char, &'a str)>)
    ensures
        text@.len() == 0 <==> parts is None,
        parts matches Some((letter, rest)) ==> letter == text@[0] && rest@ == text@.drop_first(),
{
    if text.is_empty() {
        return None;
    }
    let letter = text.get_char(0);
    let ghost bytes = text.spec_bytes();
    proof {
        // The text's bytes are the first letter's encoding, then the encoding of the rest.
        encode_utf8_first_scalar(text@);
        encode_utf8_valid_utf8(text@);
        assert(pop_first_scalar(bytes) =~= encode_utf8(text@.drop_first()));
    }
    // No character starts inside another one's encoding, so the first boundary after the
    // start is where the first letter ends.
    let mut width: usize = 1;
    while !text.is_char_boundary(width)
        invariant
            bytes == text.spec_bytes(),
            valid_utf8(bytes),
            bytes.len() > 0,
            1 <= width <= length_of_first_scalar(bytes) <= 4,
        decreases length_of_first_scalar(bytes) - width,
    {
        proof {
            reveal_with_fuel(is_char_boundary, 2);
        }
        width += 1;
    }
    let (_, rest) = text.split_at(width);
    proof {
        // The loop stopped at the end of the first letter, so `rest` has the bytes of the
        // letters after it; and two texts with the same bytes are the same text.
        reveal_with_fuel(is_char_boundary, 2);
        encode_utf8_decode_utf8(rest@);
        encode_utf8_decode_utf8(text@.drop_first());
    }
    Some((letter, rest))
}

/// Reads a text as orders, one letter at a time and from front to back. A letter that is no
/// order gives an error and does not stop the reading.
pub struct OrderParserIterator<'a> {
    rest: &'a str,
}

impl<'a> View for OrderParserIterator<'a> {
    type V = Seq<char>;

    /// The letters that have not been read yet.
    closed spec fn view(&self) -> Seq<char> {
        self.rest@
    }
}

impl<'a> OrderParserIterator<'a> {
    /// A reader that has the whole of `orders` before it.
    pub fn new(orders: &'a str) -> (parser: Self)
        ensures
            parser@ == orders@,
    {
        Self { rest: orders }
    }

    /// Reads the next letter, if one is left: its outcome is that of the letter alone, whatever
    /// came before it.
    pub fn next(&mut self) -> (outcome: Option<Result<Order, InvalidOrder>>)
        ensures
            old(self)@.len() == 0 ==> outcome is None && final(self)@ == old(self)@,
            old(self)@.len() > 0 ==> outcome == Some(Order::parse(old(self)@[0])) && final(self)@
                == old(self)@.drop_first(),
    {
        match split_first_letter(self.rest) {
            Some((letter, rest)) => {
                self.rest = rest;
                Some(Order::try_from(letter))
            },
            None => None,
        }
    }

    /// Reads all the letters that are left: one outcome for each letter, in the letters' order.
    pub fn collect(self) -> (outcomes: Vec<Result<Order, InvalidOrder>>)
        ensures
            outcomes@.len() == self@.len(),
            forall|i: int| 0 <= i < self@.len() ==> outcomes@[i] == Order::parse(self@[i]),
    {
        let ghost letters = self@;
        let mut parser = self;
        let mut outcomes: Vec<Result<Order, InvalidOrder>> = Vec::new();
        loop
            invariant
                outcomes@.len() <= letters.len(),
                parser@ == letters.skip(outcomes@.len() as int),
                forall|i: int| 0 <= i < outcomes@.len() ==> outcomes@[i] == Order::parse(letters[i]),
            ensures
                outcomes@.len() == letters.len(),
            decreases parser@.len(),
        {
            match parser.next() {
                Some(outcome) => {
                    outcomes.push(outcome);
                },
                None => {
                    break;
                },
            }
        }
        outcomes
    }
}

} // verus!
