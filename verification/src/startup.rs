//! Decisions made once, when the server starts: where the entry page comes
//! from, which address to bind, and what to tell the operator.

use vstd::prelude::*;
use crate::args::{all_digits, decimal_value, is_digit, parse_port_spec, port_digits};
use crate::resolve::{join, join_spec, INDEX_NAME};

verus! {

/// The host that the listener binds: every interface.
pub const BIND_HOST: &'static str = "0.0.0.0";

/// Where the entry page comes from.
#[derive(Debug, PartialEq, Eq)]
pub enum IndexSource {
    /// No entry page was written by hand: the listing document is generated
    /// and kept in step with the root.
    Generated,
    /// The root holds an entry page written by hand; holds its path.
    Authored(String),
}

/// The mathematical content of an [`IndexSource`].
pub enum IndexSourceView {
    Generated,
    Authored(Seq<char>),
}

impl View for IndexSource {
    type V = IndexSourceView;

    open spec fn view(&self) -> IndexSourceView {
        match self {
            IndexSource::Generated => IndexSourceView::Generated,
            IndexSource::Authored(path) => IndexSourceView::Authored(path@),
        }
    }
}

/// The path of an entry page written by hand for `root`.
pub open spec fn authored_index_spec(root: Seq<char>) -> Seq<char> {
    join_spec(root, INDEX_NAME@)
}

/// Where the entry page comes from, given whether the root holds one
/// written by hand.
pub open spec fn index_source_spec(root: Seq<char>, authored_exists: bool) -> IndexSourceView {
    if authored_exists {
        IndexSourceView::Authored(authored_index_spec(root))
    } else {
        IndexSourceView::Generated
    }
}

/// The character that writes the digit `d`.
pub open spec fn digit_char(d: nat) -> char {
    if d == 0 {
        '0'
    } else if d == 1 {
        '1'
    } else if d == 2 {
        '2'
    } else if d == 3 {
        '3'
    } else if d == 4 {
        '4'
    } else if d == 5 {
        '5'
    } else if d == 6 {
        '6'
    } else if d == 7 {
        '7'
    } else if d == 8 {
        '8'
    } else {
        '9'
    }
}

/// The decimal digits of `n`, without leading zeros.
pub open spec fn decimal_text(n: nat) -> Seq<char>
    decreases n,
{
    if n < 10 {
        seq![digit_char(n)]
    } else {
        decimal_text(n / 10).push(digit_char(n % 10))
    }
}

/// The address that the listener binds for `port`.
pub open spec fn bind_address_spec(port: u16) -> Seq<char> {
    BIND_HOST@ + seq![':'] + decimal_text(port as nat)
}

/// What the operator is told once the listener is bound to `host` and
/// `port`.
pub open spec fn listening_message_spec(host: Seq<char>, port: u16) -> Seq<char> {
    "Listening on http://"@ + host + seq![':'] + decimal_text(port as nat)
}

/// The decimal text of a number is made of digits that write the number.
pub proof fn lemma_decimal_text_writes(n: nat)
    ensures
        decimal_text(n).len() > 0,
        all_digits(decimal_text(n)),
        decimal_value(decimal_text(n)) == n,
    decreases n,
{
    let text = decimal_text(n);
    if n < 10 {
        assert(text.drop_last() =~= Seq::<char>::empty());
        assert(decimal_value(text.drop_last()) == 0);
        assert(text.last() == digit_char(n));
    } else {
        let front = decimal_text(n / 10);
        lemma_decimal_text_writes(n / 10);
        assert(text.drop_last() =~= front);
        assert(text.last() == digit_char(n % 10));
        assert forall|i: int| 0 <= i < text.len() implies is_digit(#[trigger] text[i]) by {
            if i < front.len() {
                assert(text[i] == front[i]);
            }
        }
    }
}

/// A port that is written out and read back is the same port.
pub proof fn law_port_text_round_trip(port: u16)
    ensures
        parse_port_spec(decimal_text(port as nat)) == Some(port),
{
    let text = decimal_text(port as nat);
    lemma_decimal_text_writes(port as nat);
    assert(is_digit(text[0]));
    assert(port_digits(text) == text);
}

/// Returns the path of an entry page written by hand for `root`.
pub fn authored_index(root: &str) -> (path: String)
    ensures
        path@ == authored_index_spec(root@),
{
    join(root, INDEX_NAME)
}

/// Decides where the entry page comes from, given whether the root holds
/// one written by hand.
pub fn index_source(root: &str, authored_exists: bool) -> (source: IndexSource)
    ensures
        source@ == index_source_spec(root@, authored_exists),
{
    if authored_exists {
        IndexSource::Authored(authored_index(root))
    } else {
        IndexSource::Generated
    }
}

/// Returns the text that writes the digit `d`.
fn digit_text(d: u16) -> (text: &'static str)
    requires
        d < 10,
    ensures
        text@ == seq![digit_char(d as nat)],
{
    proof {
        reveal_strlit("0");
        reveal_strlit("1");
        reveal_strlit("2");
        reveal_strlit("3");
        reveal_strlit("4");
        reveal_strlit("5");
        reveal_strlit("6");
        reveal_strlit("7");
        reveal_strlit("8");
        reveal_strlit("9");
    }
    let text = if d == 0 {
        "0"
    } else if d == 1 {
        "1"
    } else if d == 2 {
        "2"
    } else if d == 3 {
        "3"
    } else if d == 4 {
        "4"
    } else if d == 5 {
        "5"
    } else if d == 6 {
        "6"
    } else if d == 7 {
        "7"
    } else if d == 8 {
        "8"
    } else {
        "9"
    };
    assert(text@ =~= seq![digit_char(d as nat)]);
    text
}

/// Writes `port` in decimal digits, without leading zeros.
pub fn port_text(port: u16) -> (text: String)
    ensures
        text@ == decimal_text(port as nat),
    decreases port,
{
    if port < 10 {
        String::from_str(digit_text(port))
    } else {
        let mut text = port_text(port / 10);
        text.append(digit_text(port % 10));
        assert(text@ =~= decimal_text(port as nat));
        text
    }
}

/// Returns the address that the listener binds for `port`.
pub fn bind_address(port: u16) -> (address: String)
    ensures
        address@ == bind_address_spec(port),
{
    let mut address = String::from_str(BIND_HOST);
    address.append(":");
    proof {
        reveal_strlit(":");
        assert(":"@ =~= seq![':']);
    }
    address.append(port_text(port).as_str());
    address
}

/// Returns what the operator is told once the listener is bound to `host`
/// and `port`.
pub fn listening_message(host: &str, port: u16) -> (message: String)
    ensures
        message@ == listening_message_spec(host@, port),
{
    let mut message = String::from_str("Listening on http://");
    message.append(host);
    message.append(":");
    proof {
        reveal_strlit(":");
        assert(":"@ =~= seq![':']);
    }
    message.append(port_text(port).as_str());
    message
}

} // verus!
