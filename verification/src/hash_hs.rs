use vstd::prelude::*;
use vstd::seq_lib::*;

verus! {

/// The running transcript of a handshake: the canonical bytes of every
/// handshake message exchanged so far, in the exact order sent or received.
/// The buffer is append-only — messages can be added, never removed or
/// reordered — so the transcript-bound digest an external hash computes from
/// it is reproducible from the message sequence alone.
pub struct HandshakeHash {
    transcript: Vec<u8>,
}

impl View for HandshakeHash {
    type V = Seq<u8>;

    closed spec fn view(&self) -> Seq<u8> {
        self.transcript@
    }
}

impl HandshakeHash {
    /// Start an empty transcript.
    pub fn new() -> (r: HandshakeHash)
        ensures
            r@.len() == 0,
    {
        HandshakeHash { transcript: Vec::new() }
    }

    /// Append one handshake message's canonical bytes to the transcript.
    pub fn update_raw(&mut self, buf: &[u8])
        ensures
            final(self)@ == old(self)@ + buf@,
    {
        let mut i: usize = 0;
        while i < buf.len()
            invariant
                i <= buf.len(),
                self.transcript@ == old(self).transcript@ + buf@.take(i as int),
            decreases buf.len() - i,
        {
            self.transcript.push(buf[i]);
            proof {
                assert(buf@.take(i + 1 as int) =~= buf@.take(i as int).push(buf@[i as int]));
            }
            i = i + 1;
        }
        proof {
            assert(buf@.take(buf@.len() as int) =~= buf@);
        }
    }

    /// The transcript accumulated so far.
    pub fn transcript(&self) -> (r: &Vec<u8>)
        ensures
            r@ == self@,
    {
        &self.transcript
    }
}

/// The transcript a message sequence determines: the messages' bytes,
/// concatenated in order.
pub open spec fn transcript_of(msgs: Seq<Seq<u8>>) -> Seq<u8> {
    msgs.flatten()
}

/// A transcript determines and is determined by its message sequence:
/// appending one more message (as [`HandshakeHash::update_raw`] does)
/// extends the transcript by exactly that message's bytes, so after any
/// number of appends the transcript holds precisely the appended messages'
/// bytes, in order, and nothing else.
pub proof fn lemma_transcript_append(msgs: Seq<Seq<u8>>, msg: Seq<u8>)
    ensures
        transcript_of(msgs.push(msg)) == transcript_of(msgs) + msg,
{
    msgs.lemma_flatten_push(msg);
}

/// The transcript of no messages is empty, as a fresh
/// [`HandshakeHash::new`] is.
pub proof fn lemma_transcript_empty()
    ensures
        transcript_of(Seq::<Seq<u8>>::empty()) == Seq::<u8>::empty(),
{
    assert(transcript_of(Seq::<Seq<u8>>::empty()) =~= Seq::<u8>::empty());
}

} // verus!
