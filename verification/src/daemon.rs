use vstd::prelude::*;

verus! {

/// The byte that ends a reply on the daemon's input.
pub const RS: u8 = 0x1e;

/// The reply to a request whose answer did not arrive in time: `NAK`,
/// `TimeoutError`, `RS`.
pub open spec fn timeout_reply_bytes() -> Seq<u8> {
    seq![0x15u8, 0x54u8, 0x69u8, 0x6du8, 0x65u8, 0x6fu8, 0x75u8, 0x74u8, 0x45u8, 0x72u8, 0x72u8, 0x6fu8, 0x72u8, RS]
}

/// The bytes of a timed-out reply.
pub fn timeout_reply() -> (r: Vec<u8>)
    ensures
        r@ == timeout_reply_bytes(),
{
    let r: Vec<u8> = vec![0x15u8, 0x54u8, 0x69u8, 0x6du8, 0x65u8, 0x6fu8, 0x75u8, 0x74u8, 0x45u8, 0x72u8, 0x72u8, 0x6fu8, 0x72u8, RS];
    assert(r@ =~= timeout_reply_bytes());
    r
}

/// Whether a byte opens a reply (`STX` or `NAK`).
pub open spec fn is_reply_start(b: u8) -> bool {
    b == 0x02 || b == 0x15
}

/// Collects a reply from the SKILL process's output: bytes before the
/// opening `STX`/`NAK` are dropped, the reply keeps its opening byte, and
/// `RS` ends it (it is not kept).
pub struct ReplyFramer {
    pub started: bool,
    pub buf: Vec<u8>,
}

impl ReplyFramer {
    /// A framer that has read nothing.
    pub fn new() -> (f: Self)
        ensures
            !f.started,
            f.buf@.len() == 0,
    {
        ReplyFramer { started: false, buf: Vec::new() }
    }

    /// Reads one more byte; the whole reply once its end is read.
    pub fn feed(&mut self, b: u8) -> (r: Option<Vec<u8>>)
        ensures
            !old(self).started ==> r is None && final(self).started == is_reply_start(b)
                && final(self).buf@ == (if is_reply_start(b) { seq![b] } else { old(self).buf@ }),
            old(self).started && b == RS ==> (r matches Some(v) && v@ == old(self).buf@),
            old(self).started && b != RS ==> r is None && final(self).started && final(self).buf@ == old(self).buf@.push(b),
    {
        if !self.started {
            if b == 0x02 || b == 0x15 {
                self.started = true;
                let mut v: Vec<u8> = Vec::new();
                v.push(b);
                assert(v@ =~= seq![b]);
                self.buf = v;
            }
            return None;
        }
        if b == RS {
            let mut out: Vec<u8> = Vec::new();
            std::mem::swap(&mut out, &mut self.buf);
            return Some(out);
        }
        self.buf.push(b);
        None
    }
}

/// What reading `bytes` one at a time gives first, from a framer that has
/// (`started`) or has not yet seen the opening byte and holds `buf`: the
/// reply at the first `RS` after the opening byte, or `None` when the bytes
/// run out before it.
pub open spec fn framed_reply(started: bool, buf: Seq<u8>, bytes: Seq<u8>) -> Option<Seq<u8>>
    decreases bytes.len(),
{
    if bytes.len() == 0 {
        None
    } else {
        let b = bytes[0];
        if !started {
            framed_reply(is_reply_start(b), if is_reply_start(b) { seq![b] } else { buf }, bytes.skip(1))
        } else if b == RS {
            Some(buf)
        } else {
            framed_reply(true, buf.push(b), bytes.skip(1))
        }
    }
}

/// Reads a reply out of the bytes the SKILL process wrote: the first
/// complete reply, or `None` when the bytes end before it does.
pub fn frame_reply(bytes: &[u8]) -> (r: Option<Vec<u8>>)
    ensures
        match framed_reply(false, Seq::empty(), bytes@) {
            Some(v) => r matches Some(x) && x@ == v,
            None => r is None,
        },
{
    let mut f = ReplyFramer::new();
    let mut i: usize = 0;
    assert(bytes@.skip(0) =~= bytes@);
    assert(f.buf@ =~= Seq::<u8>::empty());
    while i < bytes.len()
        invariant
            i <= bytes.len(),
            framed_reply(f.started, f.buf@, bytes@.skip(i as int)) == framed_reply(false, Seq::empty(), bytes@),
        decreases bytes.len() - i,
    {
        assert(bytes@.skip(i as int).skip(1) =~= bytes@.skip(i + 1));
        match f.feed(bytes[i]) {
            Some(v) => {
                return Some(v);
            },
            None => {},
        }
        i = i + 1;
    }
    None
}

proof fn lemma_skip_noise(buf: Seq<u8>, noise: Seq<u8>, rest: Seq<u8>)
    requires
        forall|k: int| 0 <= k < noise.len() ==> !is_reply_start(#[trigger] noise[k]),
    ensures
        framed_reply(false, buf, noise + rest) == framed_reply(false, buf, rest),
    decreases noise.len(),
{
    if noise.len() > 0 {
        assert((noise + rest).skip(1) =~= noise.skip(1) + rest);
        assert((noise + rest)[0] == noise[0]);
        lemma_skip_noise(buf, noise.skip(1), rest);
    }
}

proof fn lemma_collect_payload(buf: Seq<u8>, payload: Seq<u8>, rest: Seq<u8>)
    requires
        forall|k: int| 0 <= k < payload.len() ==> #[trigger] payload[k] != RS,
    ensures
        framed_reply(true, buf, payload + seq![RS] + rest) == Some(buf + payload),
    decreases payload.len(),
{
    if payload.len() == 0 {
        assert(payload + seq![RS] + rest =~= seq![RS] + rest);
        assert(buf + payload =~= buf);
    } else {
        assert((payload + seq![RS] + rest).skip(1) =~= payload.skip(1) + seq![RS] + rest);
        assert((payload + seq![RS] + rest)[0] == payload[0]);
        lemma_collect_payload(buf.push(payload[0]), payload.skip(1), rest);
        assert(buf.push(payload[0]) + payload.skip(1) =~= buf + payload);
    }
}

/// A reply reads back whole: whatever the SKILL process printed before it,
/// a reply that opens with `STX` or `NAK`, carries no `RS` and ends with
/// `RS` is read back exactly, opening byte included, whatever follows.
pub proof fn law_reply_reads_back(noise: Seq<u8>, marker: u8, payload: Seq<u8>, rest: Seq<u8>)
    requires
        forall|k: int| 0 <= k < noise.len() ==> !is_reply_start(#[trigger] noise[k]),
        is_reply_start(marker),
        forall|k: int| 0 <= k < payload.len() ==> #[trigger] payload[k] != RS,
    ensures
        framed_reply(false, Seq::empty(), noise + seq![marker] + payload + seq![RS] + rest)
            == Some(seq![marker] + payload),
{
    let tail = seq![marker] + payload + seq![RS] + rest;
    assert(noise + seq![marker] + payload + seq![RS] + rest =~= noise + tail);
    lemma_skip_noise(Seq::empty(), noise, tail);
    assert(tail[0] == marker);
    assert(tail.skip(1) =~= payload + seq![RS] + rest);
    lemma_collect_payload(seq![marker], payload, rest);
}

} // verus!
