//! Buffer broker: two fixed-capacity byte buffers, one for inbound and one
//! for outbound bytes, each handed out to at most one holder at a time.
use vstd::prelude::*;
use vstd::string::StringSliceAdditionalSpecFns;
use vstd::utf8::valid_utf8;

verus! {

/// Bytes of backing storage in each buffer. One place is kept free, so a
/// buffer holds at most `CAPACITY - 1` bytes.
pub const CAPACITY: usize = 1000;

/// The failures that the broker and its buffers report.
#[derive(Clone, Copy, PartialEq, Eq, Structural, Debug)]
pub enum BufferError {
    /// The buffer is full.
    Capacity,
    /// The buffer is already handed out.
    Contention,
    /// The buffer's bytes are not valid UTF-8.
    Encoding,
}

/// Which of the two buffers.
#[derive(Clone, Copy, PartialEq, Eq, Structural, Debug)]
pub enum Direction {
    In,
    Out,
}

/// Whether a push onto a buffer holding `content` is accepted.
pub open spec fn push_result(content: Seq<u8>) -> Result<(), BufferError> {
    if content.len() < CAPACITY - 1 {
        Ok(())
    } else {
        Err(BufferError::Capacity)
    }
}

/// The content of a buffer after `c` is pushed onto `content`.
pub open spec fn pushed(content: Seq<u8>, c: u8) -> Seq<u8> {
    if content.len() < CAPACITY - 1 {
        content.push(c)
    } else {
        content
    }
}

/// The content of a buffer after each of `bytes` is pushed in turn.
pub open spec fn pushed_all(content: Seq<u8>, bytes: Seq<u8>) -> Seq<u8>
    decreases bytes.len(),
{
    if bytes.len() == 0 {
        content
    } else {
        pushed(pushed_all(content, bytes.drop_last()), bytes.last())
    }
}

/// Backing storage of a buffer, and a cursor that marks its filled prefix.
pub struct StdioBack {
    backing: [u8; 1000],
    cursor: usize,
}

impl View for StdioBack {
    type V = Seq<u8>;

    /// The filled prefix, oldest byte first.
    closed spec fn view(&self) -> Seq<u8> {
        self.backing@.subrange(0, self.cursor as int)
    }
}

impl StdioBack {
    #[verifier::type_invariant]
    spec fn inv(self) -> bool {
        self.cursor < CAPACITY
    }

    /// The whole backing storage, filled prefix and the rest.
    pub closed spec fn storage(&self) -> Seq<u8> {
        self.backing@
    }

    /// An empty buffer whose storage is all zero.
    pub fn new() -> (r: StdioBack)
        ensures
            r@ == Seq::<u8>::empty(),
            r.storage() == Seq::new(CAPACITY as nat, |i: int| 0u8),
    {
        let r = StdioBack { backing: [0u8; 1000], cursor: 0 };
        assert(r.backing@ =~= Seq::new(CAPACITY as nat, |i: int| 0u8));
        assert(r@ =~= Seq::<u8>::empty());
        r
    }
}

/// Exclusive handle on one of the broker's buffers. It is obtained from
/// `BufferBroker::stdin` or `BufferBroker::stdout` and given back with
/// `BufferBroker::release`. The handle carries the buffer itself: a handle
/// dropped without being released takes its buffer with it, and the broker
/// reports `Contention` for that buffer from then on.
pub struct Stdio {
    slot: Direction,
    stdioback: StdioBack,
}

impl View for Stdio {
    type V = Seq<u8>;

    /// The filled prefix of the buffer, oldest byte first.
    closed spec fn view(&self) -> Seq<u8> {
        self.stdioback@
    }
}

impl Stdio {
    /// Which buffer this handle holds.
    pub closed spec fn spec_slot(&self) -> Direction {
        self.slot
    }

    /// The whole backing storage of the buffer.
    pub closed spec fn storage(&self) -> Seq<u8> {
        self.stdioback.storage()
    }

    /// Which buffer this handle holds.
    pub fn slot(&self) -> (r: Direction)
        ensures
            r == self.spec_slot(),
    {
        self.slot
    }

    /// Empties the buffer and zeroes its whole storage.
    pub fn clear(&mut self)
        ensures
            final(self)@ == Seq::<u8>::empty(),
            final(self).storage() == Seq::new(CAPACITY as nat, |i: int| 0u8),
            final(self).spec_slot() == old(self).spec_slot(),
    {
        self.stdioback = StdioBack::new();
    }

    /// Appends `c` at the cursor. Fails with `Capacity`, and changes nothing,
    /// once the buffer holds `CAPACITY - 1` bytes.
    pub fn push(&mut self, c: u8) -> (r: Result<(), BufferError>)
        ensures
            r == push_result(old(self)@),
            final(self)@ == pushed(old(self)@, c),
            r is Ok ==> final(self).storage() == old(self).storage().update(old(self)@.len() as int, c),
            r is Err ==> final(self).storage() == old(self).storage(),
            final(self).spec_slot() == old(self).spec_slot(),
    {
        proof {
            use_type_invariant(&self.stdioback);
        }
        let cursor = self.stdioback.cursor;
        if cursor + 1 >= CAPACITY {
            Err(BufferError::Capacity)
        } else {
            self.stdioback.backing[cursor] = c;
            self.stdioback.cursor = cursor + 1;
            assert(self@ =~= old(self)@.push(c));
            Ok(())
        }
    }

    /// Removes and returns the most recently pushed byte, if any.
    pub fn pop(&mut self) -> (r: Option<u8>)
        ensures
            old(self)@.len() == 0 ==> r is None && final(self)@ == old(self)@,
            old(self)@.len() > 0 ==> r == Some(old(self)@.last()) && final(self)@
                == old(self)@.drop_last(),
            final(self).storage() == old(self).storage(),
            final(self).spec_slot() == old(self).spec_slot(),
    {
        proof {
            use_type_invariant(&self.stdioback);
        }
        let cursor = self.stdioback.cursor;
        if cursor == 0 {
            None
        } else {
            let out = self.stdioback.backing[cursor - 1];
            self.stdioback.cursor = cursor - 1;
            assert(self@ =~= old(self)@.drop_last());
            Some(out)
        }
    }

    /// Number of bytes in the buffer.
    pub fn len(&self) -> (r: usize)
        ensures
            r == self@.len(),
            r < CAPACITY,
    {
        proof {
            use_type_invariant(&self.stdioback);
        }
        self.stdioback.cursor
    }

    /// The filled prefix, oldest byte first.
    pub fn as_slice(&self) -> (r: &[u8])
        ensures
            r@ == self@,
    {
        proof {
            use_type_invariant(&self.stdioback);
        }
        let all: &[u8] = self.stdioback.backing.as_slice();
        slice_prefix(all, self.stdioback.cursor)
    }
}

impl Stdio {
    /// The filled prefix as text: `None` for an empty buffer, else the
    /// decoded string, or `Encoding` when the bytes are not valid UTF-8.
    pub fn as_str(&self) -> (r: Result<Option<&str>, BufferError>)
        ensures
            self@.len() == 0 ==> r matches Ok(None),
            self@.len() > 0 && valid_utf8(self@) ==> (r matches Ok(Some(text)) && text.spec_bytes()
                == self@),
            self@.len() > 0 && !valid_utf8(self@) ==> r matches Err(BufferError::Encoding),
    {
        if self.len() < 1 {
            return Ok(None);
        }
        match utf8_text(self.as_slice()) {
            Some(text) => Ok(Some(text)),
            None => Err(BufferError::Encoding),
        }
    }

    /// Pushes the UTF-8 bytes of `s` one at a time. Stops at the first push
    /// that fails and reports `Capacity`; the bytes before it stay pushed.
    pub fn write_str(&mut self, s: &str) -> (r: Result<(), BufferError>)
        ensures
            final(self)@ == pushed_all(old(self)@, s.spec_bytes()),
            r is Ok <==> old(self)@.len() + s.spec_bytes().len() <= CAPACITY - 1,
            r is Err ==> r == Err::<(), BufferError>(BufferError::Capacity),
            final(self).spec_slot() == old(self).spec_slot(),
    {
        let bytes: &[u8] = s.as_bytes();
        let start = self.len();
        let mut i: usize = 0;
        while i < bytes.len()
            invariant
                i <= bytes@.len(),
                bytes@ == s.spec_bytes(),
                start == old(self)@.len(),
                start + i <= CAPACITY - 1,
                self@ == old(self)@ + bytes@.take(i as int),
                self.spec_slot() == old(self).spec_slot(),
            decreases bytes@.len() - i,
        {
            let outcome = self.push(bytes[i]);
            if outcome.is_err() {
                proof {
                    lemma_pushed_all(old(self)@, bytes@);
                    assert(bytes@.take(i as int).take(i as int) =~= bytes@.take(i as int));
                }
                return Err(BufferError::Capacity);
            }
            assert(bytes@.take(i + 1) =~= bytes@.take(i as int).push(bytes@[i as int]));
            i = i + 1;
        }
        proof {
            lemma_pushed_all(old(self)@, bytes@);
            assert(bytes@.take(i as int) =~= bytes@);
            assert(bytes@.take(i as int).take(i as int) =~= bytes@);
        }
        Ok(())
    }
}

/// Relies on `core::str::from_utf8`: it succeeds exactly on valid UTF-8,
/// and the string it returns consists of the given bytes.
#[verifier::external_body]
fn utf8_text(bytes: &[u8]) -> (r: Option<&str>)
    ensures
        r is Some <==> valid_utf8(bytes@),
        r matches Some(text) ==> text.spec_bytes() == bytes@,
{
    core::str::from_utf8(bytes).ok()
}

/// Pushing `bytes` in turn onto `content` appends as many of them as there
/// is room for.
pub proof fn lemma_pushed_all(content: Seq<u8>, bytes: Seq<u8>)
    requires
        content.len() <= CAPACITY - 1,
    ensures
        pushed_all(content, bytes) == content + bytes.take(
            vstd::math::min(bytes.len() as int, CAPACITY - 1 - content.len()),
        ),
    decreases bytes.len(),
{
    let room = CAPACITY - 1 - content.len();
    if bytes.len() == 0 {
        assert(content + bytes.take(0) =~= content);
    } else {
        let front = bytes.drop_last();
        lemma_pushed_all(content, front);
        if front.len() < room {
            assert(front.take(front.len() as int).push(bytes.last()) =~= bytes.take(
                bytes.len() as int,
            ));
            assert((content + front.take(front.len() as int)).push(bytes.last()) =~= content
                + bytes.take(bytes.len() as int));
        } else {
            assert(front.take(room) =~= bytes.take(room));
        }
    }
}

/// Pushing bytes one at a time onto an empty buffer: exactly the first
/// `CAPACITY - 1` pushes succeed, every later one fails with `Capacity`,
/// and the buffer ends up holding the bytes that were accepted.
pub proof fn lemma_push_capacity(bytes: Seq<u8>)
    ensures
        forall|i: int|
            0 <= i < bytes.len() ==> #[trigger] push_result(pushed_all(Seq::empty(), bytes.take(i)))
                == if i < CAPACITY - 1 {
                Ok::<(), BufferError>(())
            } else {
                Err(BufferError::Capacity)
            },
        pushed_all(Seq::empty(), bytes) == bytes.take(
            vstd::math::min(bytes.len() as int, CAPACITY - 1),
        ),
{
    assert forall|i: int| 0 <= i < bytes.len() implies #[trigger] push_result(
        pushed_all(Seq::empty(), bytes.take(i)),
    ) == if i < CAPACITY - 1 {
        Ok::<(), BufferError>(())
    } else {
        Err(BufferError::Capacity)
    } by {
        lemma_pushed_all(Seq::empty(), bytes.take(i));
    }
    lemma_pushed_all(Seq::empty(), bytes);
    assert(Seq::<u8>::empty() + bytes.take(vstd::math::min(bytes.len() as int, CAPACITY - 1))
        =~= bytes.take(vstd::math::min(bytes.len() as int, CAPACITY - 1)));
}

/// The other buffer.
pub open spec fn other(slot: Direction) -> Direction {
    match slot {
        Direction::In => Direction::Out,
        Direction::Out => Direction::In,
    }
}

/// Owner of the two buffers for the whole life of the program. A buffer is
/// either in the broker or held by exactly one `Stdio` handle.
pub struct BufferBroker {
    stdin: Option<StdioBack>,
    stdout: Option<StdioBack>,
}

/// The outcome of acquiring `slot` from `before`, leaving `after`: the
/// buffer's content in a handle when the broker had it, else `Contention`
/// with nothing changed. The other buffer is untouched either way.
pub open spec fn acquired(
    before: BufferBroker,
    slot: Direction,
    r: Result<Stdio, BufferError>,
    after: BufferBroker,
) -> bool {
    &&& after.slot_state(other(slot)) == before.slot_state(other(slot))
    &&& after.slot_storage(other(slot)) == before.slot_storage(other(slot))
    &&& after.slot_state(slot) is None
    &&& match before.slot_state(slot) {
        Some(content) => r matches Ok(handle) && handle.spec_slot() == slot && handle@ == content
            && handle.storage() == before.slot_storage(slot),
        None => r matches Err(BufferError::Contention),
    }
}

/// The outcome of giving `handle` back to `before`, leaving `after`: the
/// buffer is in the broker again with the content and the storage the
/// handle left in it; nothing is zeroed.
pub open spec fn released(before: BufferBroker, handle: Stdio, after: BufferBroker) -> bool {
    &&& after.slot_state(handle.spec_slot()) == Some(handle@)
    &&& after.slot_storage(handle.spec_slot()) == handle.storage()
    &&& after.slot_storage(other(handle.spec_slot())) == before.slot_storage(
        other(handle.spec_slot()),
    )
    &&& after.slot_state(other(handle.spec_slot())) == before.slot_state(
        other(handle.spec_slot()),
    )
}

impl BufferBroker {
    /// The content of a buffer while the broker has it; `None` while a
    /// handle holds it.
    pub closed spec fn slot_state(&self, slot: Direction) -> Option<Seq<u8>> {
        let back = match slot {
            Direction::In => self.stdin,
            Direction::Out => self.stdout,
        };
        match back {
            Some(b) => Some(b@),
            None => None,
        }
    }

    /// The whole backing storage of a buffer while the broker has it.
    pub closed spec fn slot_storage(&self, slot: Direction) -> Seq<u8> {
        let back = match slot {
            Direction::In => self.stdin,
            Direction::Out => self.stdout,
        };
        match back {
            Some(b) => b.storage(),
            None => Seq::empty(),
        }
    }

    /// A broker with both buffers empty and available.
    pub fn new() -> (r: BufferBroker)
        ensures
            r.slot_state(Direction::In) == Some(Seq::<u8>::empty()),
            r.slot_state(Direction::Out) == Some(Seq::<u8>::empty()),
    {
        BufferBroker { stdin: Some(StdioBack::new()), stdout: Some(StdioBack::new()) }
    }

    /// Hands out the buffer `slot`, or fails with `Contention` at once when a
    /// handle already holds it.
    pub fn acquire(&mut self, slot: Direction) -> (r: Result<Stdio, BufferError>)
        ensures
            acquired(*old(self), slot, r, *final(self)),
    {
        let taken = match slot {
            Direction::In => self.stdin.take(),
            Direction::Out => self.stdout.take(),
        };
        match taken {
            Some(stdioback) => Ok(Stdio { slot, stdioback }),
            None => Err(BufferError::Contention),
        }
    }

    /// Hands out the inbound buffer.
    pub fn stdin(&mut self) -> (r: Result<Stdio, BufferError>)
        ensures
            acquired(*old(self), Direction::In, r, *final(self)),
    {
        self.acquire(Direction::In)
    }

    /// Hands out the outbound buffer.
    pub fn stdout(&mut self) -> (r: Result<Stdio, BufferError>)
        ensures
            acquired(*old(self), Direction::Out, r, *final(self)),
    {
        self.acquire(Direction::Out)
    }

    /// Takes a handle back; its buffer, with its content, can be acquired again.
    pub fn release(&mut self, handle: Stdio)
        ensures
            released(*old(self), handle, *final(self)),
    {
        match handle.slot {
            Direction::In => self.stdin = Some(handle.stdioback),
            Direction::Out => self.stdout = Some(handle.stdioback),
        }
    }
}

/// Acquiring a buffer a second time without a release in between fails
/// with `Contention`; once the handle is released, acquiring it again
/// succeeds and yields the content the handle left.
pub proof fn lemma_acquire_release(
    b0: BufferBroker,
    b1: BufferBroker,
    b2: BufferBroker,
    b3: BufferBroker,
    b4: BufferBroker,
    slot: Direction,
    first: Result<Stdio, BufferError>,
    second: Result<Stdio, BufferError>,
    handle: Stdio,
    third: Result<Stdio, BufferError>,
)
    requires
        acquired(b0, slot, first, b1),
        first is Ok,
        acquired(b1, slot, second, b2),
        handle.spec_slot() == slot,
        released(b2, handle, b3),
        acquired(b3, slot, third, b4),
    ensures
        second matches Err(BufferError::Contention),
        third matches Ok(h) && h@ == handle@,
{
}

/// The first `n` elements of `s`.
fn slice_prefix(s: &[u8], n: usize) -> (r: &[u8])
    requires
        n <= s@.len(),
    ensures
        r@ == s@.subrange(0, n as int),
{
    &s[0..n]
}

} // verus!
