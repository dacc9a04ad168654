//! The wake channel: a channel of the daemon's client-to-client messaging
//! that both sessions subscribe to, so that a message sent on it by the
//! command session ends the idle wait of the notification session.

use vstd::prelude::*;

verus! {

/// `mpd::message::Channel`: a channel of the daemon's client-to-client
/// messaging, known by its name.
#[verifier::external_type_specification]
#[verifier::external_body]
pub struct ExChannel(mpd::message::Channel);

/// A character that the daemon accepts in a channel's name.
pub open spec fn is_channel_char(c: char) -> bool {
    ('a' <= c && c <= 'z') || ('A' <= c && c <= 'Z') || ('0' <= c && c <= '9') || c == '_'
        || c == '/' || c == '.' || c == ':'
}

/// A name that the daemon accepts for a channel.
pub open spec fn is_channel_name(name: Seq<char>) -> bool {
    forall|i: int| 0 <= i < name.len() ==> is_channel_char(#[trigger] name[i])
}

/// A digit of a number written to base 16 in lower case.
pub open spec fn is_lower_hex(c: char) -> bool {
    ('0' <= c && c <= '9') || ('a' <= c && c <= 'f')
}

/// A name of 32 lower-case hexadecimal digits.
pub open spec fn is_simple_id(name: Seq<char>) -> bool {
    name.len() == 32 && forall|i: int| 0 <= i < name.len() ==> is_lower_hex(#[trigger] name[i])
}

/// `mpd::message::Channel::new`: a channel of the given name, where the name
/// is made of English letters, digits, `_`, `/`, `.` and `:` alone, and
/// nothing otherwise.
#[verifier::external_body]
fn new_channel(name: &str) -> (channel: Option<mpd::message::Channel>)
    ensures
        channel is Some <==> is_channel_name(name@),
{
    mpd::message::Channel::new(name)
}

/// `uuid::Uuid::new_v4`, written in the simple format: a random identifier
/// as 32 lower-case hexadecimal digits. Which digits they are differs from
/// call to call. The call fails only on a system that has no random numbers
/// to give.
#[verifier::external_body]
fn random_simple_id() -> (name: String)
    ensures
        is_simple_id(name@),
{
    uuid::Uuid::new_v4().simple().to_string()
}

/// Every random identifier is a channel name that the daemon accepts.
pub proof fn lemma_simple_id_is_channel_name(name: Seq<char>)
    requires
        is_simple_id(name),
    ensures
        is_channel_name(name),
{
    assert forall|i: int| 0 <= i < name.len() implies is_channel_char(#[trigger] name[i]) by {
        assert(is_lower_hex(name[i]));
    }
}

/// The channel over which a blocked idle wait is interrupted.
#[derive(Debug)]
pub struct WakeChannel {
    name: String,
    channel: mpd::message::Channel,
}

impl WakeChannel {
    /// The channel's name.
    pub closed spec fn name(&self) -> Seq<char> {
        self.name@
    }

    /// A channel with a fresh random name, so that two front ends on one
    /// daemon do not wake each other.
    pub fn fresh() -> (wake: WakeChannel)
        ensures
            is_simple_id(wake.name()),
            is_channel_name(wake.name()),
    {
        let name = random_simple_id();
        proof {
            lemma_simple_id_is_channel_name(name@);
        }
        let channel = new_channel(name.as_str()).unwrap();
        WakeChannel { name, channel }
    }

    /// The channel of the given name, where the daemon accepts the name.
    pub fn named(name: &str) -> (wake: Option<WakeChannel>)
        ensures
            wake is Some == is_channel_name(name@),
            wake matches Some(w) ==> w.name() == name@,
    {
        match new_channel(name) {
            Some(channel) => Some(WakeChannel { name: name.to_owned(), channel }),
            None => None,
        }
    }

    /// The channel's name, as it is sent to the daemon.
    pub fn as_str(&self) -> (name: &str)
        ensures
            name@ == self.name(),
    {
        self.name.as_str()
    }

    /// The channel, for the calls that subscribe to it and send on it: the
    /// one that was made under this channel's name, and no other.
    pub fn channel(&self) -> (channel: &mpd::message::Channel)
        ensures
            *channel == self.handle(),
    {
        &self.channel
    }

    /// The daemon's channel that was made under this channel's name.
    pub closed spec fn handle(&self) -> mpd::message::Channel {
        self.channel
    }
}

} // verus!
