//! How messages travel: the size of a datagram buffer, and the framing of
//! messages on a stream, each behind its length as two octets, high octet
//! first.

use vstd::prelude::*;

verus! {

/// The size of the buffer that a datagram is received into.
pub const MAX_DATAGRAM_SIZE: usize = 2048;

/// The longest message that a frame can hold.
pub const MAX_FRAME_SIZE: usize = 65535;

/// The length that the two octets of a prefix stand for.
pub open spec fn prefix_length(high: u8, low: u8) -> int {
    high * 256 + low
}

/// A message behind its length prefix.
pub open spec fn framed(message: Seq<u8>) -> Seq<u8> {
    seq![(message.len() / 256) as u8, (message.len() % 256) as u8] + message
}

/// The length of the message that follows a prefix.
pub fn frame_length(high: u8, low: u8) -> (r: usize)
    ensures
        r == prefix_length(high, low),
        r <= MAX_FRAME_SIZE,
{
    high as usize * 256 + low as usize
}

/// A message behind its length prefix; `None` where the message is longer
/// than a frame can hold.
pub fn frame_message(message: &Vec<u8>) -> (r: Option<Vec<u8>>)
    ensures
        match r {
            Some(frame) => message@.len() <= MAX_FRAME_SIZE && frame@ == framed(message@),
            None => message@.len() > MAX_FRAME_SIZE,
        },
{
    let len: usize = message.len();
    if len > MAX_FRAME_SIZE {
        return None;
    }
    let mut frame: Vec<u8> = Vec::new();
    frame.push((len / 256) as u8);
    frame.push((len % 256) as u8);
    let ghost prefix = frame@;
    let mut i: usize = 0;
    while i < len
        invariant
            len == message@.len(),
            i <= len,
            frame@ == prefix + message@.take(i as int),
        decreases len - i,
    {
        frame.push(message[i]);
        assert(message@.take(i + 1) =~= message@.take(i as int).push(message@[i as int]));
        assert(frame@ =~= prefix + message@.take(i + 1));
        i += 1;
    }
    assert(message@.take(len as int) =~= message@);
    assert(frame@ =~= framed(message@));
    Some(frame)
}

/// The prefix of a frame gives the length of the message behind it, and the
/// message follows the prefix unchanged.
pub proof fn frame_prefix_gives_length(message: Seq<u8>)
    requires
        message.len() <= MAX_FRAME_SIZE,
    ensures
        framed(message).len() == message.len() + 2,
        prefix_length(framed(message)[0], framed(message)[1]) == message.len(),
        framed(message).skip(2) == message,
{
    assert(framed(message).skip(2) =~= message);
}

} // verus!
