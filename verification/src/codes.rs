//! The codes that tell how routing and sending went.
use vstd::prelude::*;

verus! {

/// How an attempt to send a packet ended. [`SendingCodes::message`] puts it in
/// words.
#[derive(PartialEq, Eq)]
pub enum SendingCodes {
    /// The packet of this session was sent.
    SuccessfullySent(u64),
    /// The channel refused the packet, for this reason.
    ErrorSending(String),
    /// There is no channel to send the packet on, for this reason.
    NoNextHop(String),
}

/// What a drone makes of the route of a packet.
#[derive(Clone, Copy, PartialEq, Eq, Structural, Debug)]
pub enum RoutingCodes {
    /// The packet stands at this drone and has to go on.
    Correct,
    /// The packet stands at the end of its route. It may be a flood request.
    DestinationArrived,
    /// The packet does not stand at this drone.
    HopsMismatch,
}

/// The model of [`SendingCodes`].
#[verifier::ext_equal]
pub enum SendingCodesView {
    SuccessfullySent(u64),
    ErrorSending(Seq<char>),
    NoNextHop(Seq<char>),
}

impl View for SendingCodes {
    type V = SendingCodesView;

    open spec fn view(&self) -> SendingCodesView {
        match self {
            SendingCodes::SuccessfullySent(session) => SendingCodesView::SuccessfullySent(*session),
            SendingCodes::ErrorSending(reason) => SendingCodesView::ErrorSending(reason@),
            SendingCodes::NoNextHop(reason) => SendingCodesView::NoNextHop(reason@),
        }
    }
}

/// The decimal digit for `d`, which is below ten.
pub open spec fn digit(d: int) -> char {
    ('0' as int + d) as char
}

/// `n` in decimal, without leading zeros.
pub open spec fn decimal(n: nat) -> Seq<char>
    decreases n,
{
    if n < 10 {
        seq![digit(n as int)]
    } else {
        decimal(n / 10).push(digit((n % 10) as int))
    }
}

impl SendingCodesView {
    /// The code in words.
    pub open spec fn text(self) -> Seq<char> {
        match self {
            SendingCodesView::SuccessfullySent(session) => "Successfully sent [Packet "@ + decimal(
                session as nat,
            ) + "]"@,
            SendingCodesView::ErrorSending(reason) => "Error sending the packet ["@ + reason + "]"@,
            SendingCodesView::NoNextHop(reason) => "No next hop available ["@ + reason + "]"@,
        }
    }
}

/// The decimal digit for `d` as a string.
fn digit_str(d: u64) -> (text: &'static str)
    requires
        d < 10,
    ensures
        text@ == seq![digit(d as int)],
{
    proof {
        reveal_strlit("0");
        reveal_strlit("1");
        reveal_strlit("2");
        reveal_strlit("3");
        reveal_strlit("4");
        reveal_strlit("5");
        reveal_strlit("6");
        reveal_strlit("7");
        reveal_strlit("8");
        reveal_strlit("9");
    }
    match d {
        0 => "0",
        1 => "1",
        2 => "2",
        3 => "3",
        4 => "4",
        5 => "5",
        6 => "6",
        7 => "7",
        8 => "8",
        _ => "9",
    }
}

/// `n` in decimal.
fn decimal_string(n: u64) -> (text: String)
    ensures
        text@ == decimal(n as nat),
    decreases n,
{
    if n < 10 {
        String::from_str(digit_str(n))
    } else {
        let mut text = decimal_string(n / 10);
        text.append(digit_str(n % 10));
        text
    }
}

impl SendingCodes {
    /// The code in words.
    pub fn message(&self) -> (text: String)
        ensures
            text@ == self@.text(),
    {
        let mut text: String;
        match self {
            SendingCodes::SuccessfullySent(session) => {
                text = String::from_str("Successfully sent [Packet ");
                text.append(decimal_string(*session).as_str());
            },
            SendingCodes::ErrorSending(reason) => {
                text = String::from_str("Error sending the packet [");
                text.append(reason.as_str());
            },
            SendingCodes::NoNextHop(reason) => {
                text = String::from_str("No next hop available [");
                text.append(reason.as_str());
            },
        }
        text.append("]");
        text
    }
}

} // verus!
