//! Stages of the channel proposal workflow and of the channel lifecycle.

use crate::ids::ActiveChannelId;
use vstd::prelude::*;
use vstd::string::*;

verus! {

/// Channel proposal workflow: the stages through which the funder of a
/// channel passes, in this order.
#[derive(Copy, Clone, Ord, PartialOrd, Eq, PartialEq, Hash, Debug, Structural)]
pub enum ChannelPropose {
    /// asked remote peer to accept a new channel
    Proposed,
    /// remote peer accepted our channel proposal
    Accepted,
    /// signing refund transaction on our side
    Signing,
    /// sent funding txid and commitment signature to the remote peer
    Funding,
    /// received signed commitment from the remote peer
    Signed,
    /// awaiting funding transaction to be mined
    Funded,
    /// funding transaction is mined, awaiting for the other peer confirmation of this fact
    Locked,
}

/// Lifecycle marker that a channel carries.
#[derive(Copy, Clone, Ord, PartialOrd, Eq, PartialEq, Hash, Debug, Structural)]
pub enum Lifecycle {
    /// Channel is initialized, communications with the remote peer has not started yet
    Initial,
    /// Sent `open_channel`
    Proposed,
    /// Received `accept_channel`
    Accepted,
    /// Producing signature for the refund transaction internally
    Signing,
    /// Local party signed funding tx
    Funding,
    /// Other peer signed funding tx
    Signed,
    /// Funding tx is published but not mined
    Funded,
    /// Funding tx mining confirmed by one peer
    Locked,
    /// Both peers confirmed lock, channel active
    Active,
}

impl Lifecycle {
    /// Position of the marker in the order of the lifecycle, from 0 for
    /// [`Lifecycle::Initial`] to 8 for [`Lifecycle::Active`].
    pub open spec fn rank(self) -> nat {
        match self {
            Lifecycle::Initial => 0,
            Lifecycle::Proposed => 1,
            Lifecycle::Accepted => 2,
            Lifecycle::Signing => 3,
            Lifecycle::Funding => 4,
            Lifecycle::Signed => 5,
            Lifecycle::Funded => 6,
            Lifecycle::Locked => 7,
            Lifecycle::Active => 8,
        }
    }

    /// Upper-case name of the marker.
    pub open spec fn spec_name(self) -> Seq<char> {
        match self {
            Lifecycle::Initial => "INIT"@,
            Lifecycle::Proposed => "PROPOSED"@,
            Lifecycle::Accepted => "ACCEPTED"@,
            Lifecycle::Signing => "SIGNING"@,
            Lifecycle::Funding => "FUNDING"@,
            Lifecycle::Signed => "SIGNED"@,
            Lifecycle::Funded => "FUNDED"@,
            Lifecycle::Locked => "LOCKED"@,
            Lifecycle::Active => "ACTIVE"@,
        }
    }

    /// Upper-case name of the marker, as shown to an operator.
    pub fn name(&self) -> (name: &'static str)
        ensures
            name@ == self.spec_name(),
    {
        match self {
            Lifecycle::Initial => "INIT",
            Lifecycle::Proposed => "PROPOSED",
            Lifecycle::Accepted => "ACCEPTED",
            Lifecycle::Signing => "SIGNING",
            Lifecycle::Funding => "FUNDING",
            Lifecycle::Signed => "SIGNED",
            Lifecycle::Funded => "FUNDED",
            Lifecycle::Locked => "LOCKED",
            Lifecycle::Active => "ACTIVE",
        }
    }
}

/// The hexadecimal digit of a value below 16.
pub open spec fn hex_char(nibble: u8) -> char {
    if nibble == 0 {
        '0'
    } else if nibble == 1 {
        '1'
    } else if nibble == 2 {
        '2'
    } else if nibble == 3 {
        '3'
    } else if nibble == 4 {
        '4'
    } else if nibble == 5 {
        '5'
    } else if nibble == 6 {
        '6'
    } else if nibble == 7 {
        '7'
    } else if nibble == 8 {
        '8'
    } else if nibble == 9 {
        '9'
    } else if nibble == 10 {
        'a'
    } else if nibble == 11 {
        'b'
    } else if nibble == 12 {
        'c'
    } else if nibble == 13 {
        'd'
    } else if nibble == 14 {
        'e'
    } else {
        'f'
    }
}

/// The two lower-case hexadecimal digits of a byte.
pub open spec fn hex_byte(byte: u8) -> Seq<char> {
    seq![hex_char(byte / 16), hex_char(byte % 16)]
}

/// Lower-case hexadecimal rendering of a byte string.
pub open spec fn hex_bytes(bytes: Seq<u8>) -> Seq<char>
    decreases bytes.len(),
{
    if bytes.len() == 0 {
        Seq::empty()
    } else {
        hex_bytes(bytes.drop_last()) + hex_byte(bytes.last())
    }
}

/// Abbreviated rendering of a 32-byte id: its first four and its last four
/// bytes in hexadecimal, with two dots in between.
pub open spec fn short_id(id: Seq<u8>) -> Seq<char> {
    hex_bytes(id.subrange(0, 4)) + ".."@ + hex_bytes(id.subrange(28, 32))
}

fn hex_digit(nibble: u8) -> (digit: &'static str)
    requires
        nibble < 16,
    ensures
        digit@ == seq![hex_char(nibble)],
{
    proof {
        reveal_strlit("0");
        reveal_strlit("1");
        reveal_strlit("2");
        reveal_strlit("3");
        reveal_strlit("4");
        reveal_strlit("5");
        reveal_strlit("6");
        reveal_strlit("7");
        reveal_strlit("8");
        reveal_strlit("9");
        reveal_strlit("a");
        reveal_strlit("b");
        reveal_strlit("c");
        reveal_strlit("d");
        reveal_strlit("e");
        reveal_strlit("f");
    }
    let digit = if nibble == 0 {
        "0"
    } else if nibble == 1 {
        "1"
    } else if nibble == 2 {
        "2"
    } else if nibble == 3 {
        "3"
    } else if nibble == 4 {
        "4"
    } else if nibble == 5 {
        "5"
    } else if nibble == 6 {
        "6"
    } else if nibble == 7 {
        "7"
    } else if nibble == 8 {
        "8"
    } else if nibble == 9 {
        "9"
    } else if nibble == 10 {
        "a"
    } else if nibble == 11 {
        "b"
    } else if nibble == 12 {
        "c"
    } else if nibble == 13 {
        "d"
    } else if nibble == 14 {
        "e"
    } else {
        "f"
    };
    assert(digit@ =~= seq![hex_char(nibble)]);
    digit
}

fn push_hex(text: &mut String, id: &[u8; 32], from: usize, to: usize)
    requires
        from <= to <= 32,
    ensures
        final(text)@ == old(text)@ + hex_bytes(id@.subrange(from as int, to as int)),
{
    let mut i: usize = from;
    assert(id@.subrange(from as int, from as int) =~= Seq::<u8>::empty());
    assert(text@ + hex_bytes(Seq::<u8>::empty()) =~= text@);
    while i < to
        invariant
            from <= i <= to <= 32,
            text@ == old(text)@ + hex_bytes(id@.subrange(from as int, i as int)),
        decreases to - i,
    {
        let byte: u8 = id[i];
        let ghost before = text@;
        text.append(hex_digit(byte / 16));
        text.append(hex_digit(byte % 16));
        proof {
            let done = id@.subrange(from as int, i as int);
            let next = id@.subrange(from as int, i + 1);
            assert(next.drop_last() =~= done);
            assert(next.last() == byte);
            assert(seq![hex_char(byte / 16)] + seq![hex_char(byte % 16)] =~= hex_byte(byte));
            assert(text@ =~= before + hex_byte(byte));
            assert(hex_bytes(next) == hex_bytes(done) + hex_byte(byte));
            assert(text@ =~= old(text)@ + hex_bytes(next));
        }
        i = i + 1;
    }
}

impl ChannelPropose {
    /// Position of the stage in the workflow, from 0 for
    /// [`ChannelPropose::Proposed`] to 6 for [`ChannelPropose::Locked`].
    pub open spec fn rank(self) -> nat {
        match self {
            ChannelPropose::Proposed => 0,
            ChannelPropose::Accepted => 1,
            ChannelPropose::Signing => 2,
            ChannelPropose::Funding => 3,
            ChannelPropose::Signed => 4,
            ChannelPropose::Funded => 5,
            ChannelPropose::Locked => 6,
        }
    }

    /// The stage at a position of the workflow.
    pub open spec fn at_rank(rank: nat) -> Option<ChannelPropose> {
        if rank == 0 {
            Some(ChannelPropose::Proposed)
        } else if rank == 1 {
            Some(ChannelPropose::Accepted)
        } else if rank == 2 {
            Some(ChannelPropose::Signing)
        } else if rank == 3 {
            Some(ChannelPropose::Funding)
        } else if rank == 4 {
            Some(ChannelPropose::Signed)
        } else if rank == 5 {
            Some(ChannelPropose::Funded)
        } else if rank == 6 {
            Some(ChannelPropose::Locked)
        } else {
            None
        }
    }

    /// The byte under which the stage is persisted: its position in the
    /// workflow.
    pub fn to_byte(&self) -> (byte: u8)
        ensures
            byte == self.rank(),
            Self::at_rank(byte as nat) == Some(*self),
    {
        match self {
            ChannelPropose::Proposed => 0,
            ChannelPropose::Accepted => 1,
            ChannelPropose::Signing => 2,
            ChannelPropose::Funding => 3,
            ChannelPropose::Signed => 4,
            ChannelPropose::Funded => 5,
            ChannelPropose::Locked => 6,
        }
    }

    /// The stage that was persisted under a byte, where there is one.
    pub fn from_byte(byte: u8) -> (stage: Option<ChannelPropose>)
        ensures
            stage == Self::at_rank(byte as nat),
            stage matches Some(stage) ==> stage.rank() == byte,
            stage is None <==> byte > 6,
    {
        match byte {
            0 => Some(ChannelPropose::Proposed),
            1 => Some(ChannelPropose::Accepted),
            2 => Some(ChannelPropose::Signing),
            3 => Some(ChannelPropose::Funding),
            4 => Some(ChannelPropose::Signed),
            5 => Some(ChannelPropose::Funded),
            6 => Some(ChannelPropose::Locked),
            _ => None,
        }
    }

    /// The lifecycle marker that a channel carries while its proposal is at
    /// this stage.
    pub open spec fn spec_lifecycle(self) -> Lifecycle {
        match self {
            ChannelPropose::Proposed => Lifecycle::Proposed,
            ChannelPropose::Accepted => Lifecycle::Accepted,
            ChannelPropose::Signing => Lifecycle::Signing,
            ChannelPropose::Funding => Lifecycle::Funding,
            ChannelPropose::Signed => Lifecycle::Signed,
            ChannelPropose::Funded => Lifecycle::Funded,
            ChannelPropose::Locked => Lifecycle::Locked,
        }
    }

    /// Computes channel lifecycle stage for the current channel proposal workflow stage
    pub fn lifecycle(&self) -> (lifecycle: Lifecycle)
        ensures
            lifecycle == self.spec_lifecycle(),
            lifecycle.rank() == self.rank() + 1,
    {
        match self {
            ChannelPropose::Proposed => Lifecycle::Proposed,
            ChannelPropose::Accepted => Lifecycle::Accepted,
            ChannelPropose::Signing => Lifecycle::Signing,
            ChannelPropose::Funding => Lifecycle::Funding,
            ChannelPropose::Signed => Lifecycle::Signed,
            ChannelPropose::Funded => Lifecycle::Funded,
            ChannelPropose::Locked => Lifecycle::Locked,
        }
    }

    /// Upper-case name of the stage, as shown to an operator and as written
    /// where the stage is persisted.
    pub fn name(&self) -> (name: &'static str)
        ensures
            name@ == self.spec_lifecycle().spec_name(),
    {
        self.lifecycle().name()
    }

    /// What an information message says before it names the channel.
    pub open spec fn info_head(self) -> Seq<char> {
        match self {
            ChannelPropose::Proposed => "Proposing channel to remote peer (using temp id "@,
            ChannelPropose::Accepted => "Remote peer accepted channel with temp id "@,
            ChannelPropose::Signing => "Signing refund transaction locally for channel "@,
            ChannelPropose::Funding =>
                "Awaiting for the remote peer to sign refund transaction for channel "@,
            ChannelPropose::Signed => "Signing funding transaction for channel "@,
            ChannelPropose::Funded => "Publishing fully signed funding transaction for channel "@,
            ChannelPropose::Locked => "Activating channel "@,
        }
    }

    /// What an information message says after it has named the channel.
    pub open spec fn info_tail(self) -> Seq<char> {
        match self {
            ChannelPropose::Proposed => ")"@,
            ChannelPropose::Accepted => ". Constructing refund transaction."@,
            _ => ""@,
        }
    }

    /// The information message of a stage for a channel id.
    pub open spec fn spec_info_message(self, channel_id: ActiveChannelId) -> Seq<char> {
        self.info_head() + short_id(channel_id.bytes()) + self.info_tail()
    }

    fn info_head_text(&self) -> (head: &'static str)
        ensures
            head@ == self.info_head(),
    {
        match self {
            ChannelPropose::Proposed => "Proposing channel to remote peer (using temp id ",
            ChannelPropose::Accepted => "Remote peer accepted channel with temp id ",
            ChannelPropose::Signing => "Signing refund transaction locally for channel ",
            ChannelPropose::Funding =>
                "Awaiting for the remote peer to sign refund transaction for channel ",
            ChannelPropose::Signed => "Signing funding transaction for channel ",
            ChannelPropose::Funded => "Publishing fully signed funding transaction for channel ",
            ChannelPropose::Locked => "Activating channel ",
        }
    }

    fn info_tail_text(&self) -> (tail: &'static str)
        ensures
            tail@ == self.info_tail(),
    {
        match self {
            ChannelPropose::Proposed => ")",
            ChannelPropose::Accepted => ". Constructing refund transaction.",
            _ => "",
        }
    }

    /// Construct information message for error and client reporting
    pub fn info_message(&self, channel_id: ActiveChannelId) -> (message: String)
        ensures
            message@ == self.spec_info_message(channel_id),
    {
        let id = channel_id.as_bytes();
        let mut message = String::from_str(self.info_head_text());
        push_hex(&mut message, &id, 0, 4);
        message.append("..");
        push_hex(&mut message, &id, 28, 32);
        message.append(self.info_tail_text());
        message
    }
}

} // verus!
