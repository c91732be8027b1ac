//! The answer to a conversion query, and the message that states it.

use vstd::prelude::*;
use vstd::string::*;

verus! {

/// The rate at which one currency is converted into another.
#[derive(Debug)]
pub struct Quote {
    /// The code of the currency that is converted.
    pub source: String,
    /// The code of the currency that it is converted into.
    pub target: String,
    /// The bit pattern of the single-precision rate from source to target.
    pub rate: u32,
}

/// A `Quote` as a plain value.
pub struct QuoteView {
    pub source: Seq<char>,
    pub target: Seq<char>,
    pub rate: u32,
}

impl View for Quote {
    type V = QuoteView;

    open spec fn view(&self) -> QuoteView {
        QuoteView { source: self.source@, target: self.target@, rate: self.rate }
    }
}

impl QuoteView {
    /// The message for a conversion at this quote, given the three numbers
    /// that it names as they are to be printed.
    pub open spec fn message(self, amount: Seq<char>, converted: Seq<char>, rate: Seq<char>) -> Seq<
        char,
    > {
        "\nResult:\n"@ + amount + " "@ + self.source + " will be "@ + converted + " in "@
            + self.target + ".\nExchange rate used for the conversion: "@ + rate + "."@
    }
}

impl Quote {
    /// The message that states a conversion at this quote. `amount` is the
    /// amount of the source currency as it is to be printed, `converted` its
    /// product with the rate, and `rate` the rate itself.
    pub fn message(&self, amount: &str, converted: &str, rate: &str) -> (message: String)
        ensures
            message@ == self@.message(amount@, converted@, rate@),
    {
        let mut message = String::from_str("\nResult:\n");
        message.append(amount);
        message.append(" ");
        message.append(self.source.as_str());
        message.append(" will be ");
        message.append(converted);
        message.append(" in ");
        message.append(self.target.as_str());
        message.append(".\nExchange rate used for the conversion: ");
        message.append(rate);
        message.append(".");
        message
    }
}

/// The line that lists one rate: the code, a colon and the rate as it is to
/// be printed.
pub open spec fn rate_line_text(code: Seq<char>, rate: Seq<char>) -> Seq<char> {
    code + ": "@ + rate
}

/// The line that lists the rate of `code`.
pub fn rate_line(code: &str, rate: &str) -> (line: String)
    ensures
        line@ == rate_line_text(code@, rate@),
{
    let mut line = String::from_str(code);
    line.append(": ");
    line.append(rate);
    line
}

} // verus!
