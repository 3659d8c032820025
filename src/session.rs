use vstd::prelude::*;
use crate::command::{COMMAND_LEN, GrainfatherCommand, command_frame, lemma_command_frame_len};
use crate::notification::{
    GrainfatherNotification, GrainfatherNotificationConvertError, NOTIFICATION_LEN, decode_record,
    result_view,
};
use crate::reassembly::{ReassemblyBuffer, lemma_records_append, lemma_tail_is_suffix, records_of, tail_of};
use crate::recipe::Recipe;

verus! {

/// Identifier of the characteristic that carries notifications from the appliance.
pub const CHARACTERISTIC_ID_READ: u128 = 0x0003cdd100001000800000805f9b0131;

/// Identifier of the characteristic that takes commands.
pub const CHARACTERISTIC_ID_WRITE: u128 = 0x0003cdd200001000800000805f9b0131;

/// An endpoint of the connected device, as discovered by the transport.
#[derive(Debug, Clone, Copy, PartialEq, Eq, Structural)]
pub struct Characteristic {
    pub start_handle: u16,
    pub end_handle: u16,
    pub value_handle: u16,
    pub uuid: u128,
    pub properties: u8,
}

/// The transport to one appliance, implemented by a BLE adapter or a test double.
pub trait GrainfatherClientImpl {
    type Error;

    fn is_connected(&self) -> bool;

    fn connect(&self) -> Result<(), Self::Error>;

    /// `r` is an outcome of writing `data` to `characteristic` through this transport.
    /// An implementation may say what that means for it; by default every outcome is one.
    /// Code generic over the transport knows nothing more of it than that `command`
    /// returns such an outcome.
    open spec fn wrote(
        &self,
        characteristic: Characteristic,
        data: Seq<u8>,
        r: Result<(), Self::Error>,
    ) -> bool {
        true
    }

    /// Writes one command frame to the write characteristic.
    fn command(&self, characteristic: &Characteristic, data: &[u8]) -> (r: Result<(), Self::Error>)
        requires
            characteristic.uuid == CHARACTERISTIC_ID_WRITE,
            data@.len() == COMMAND_LEN,
        ensures
            self.wrote(*characteristic, data@, r),
    ;

    fn discover_characteristics(&self) -> Result<Vec<Characteristic>, Self::Error>;

    /// Asks for notifications from the read characteristic.
    fn subscribe(&self, characteristic: &Characteristic) -> Result<(), Self::Error>
        requires
            characteristic.uuid == CHARACTERISTIC_ID_READ,
    ;
}

/// Why a session could not be opened.
#[derive(Debug)]
pub enum GrainfatherClientError<E> {
    /// The transport failed to connect.
    Connect(E),
    /// The transport failed to discover the characteristics.
    DiscoverCharacteristics(E),
    /// No discovered characteristic has the write identifier.
    WriteCharacteristic,
    /// No discovered characteristic has the read identifier.
    ReadCharacteristic,
}

/// The first characteristic in `cs` with identifier `id`.
pub open spec fn first_with_uuid(cs: Seq<Characteristic>, id: u128) -> Option<Characteristic>
    decreases cs.len(),
{
    if cs.len() == 0 {
        None
    } else if cs[0].uuid == id {
        Some(cs[0])
    } else {
        first_with_uuid(cs.drop_first(), id)
    }
}

/// Finds the first characteristic in `cs` with identifier `id`.
pub fn find_characteristic(cs: &Vec<Characteristic>, id: u128) -> (r: Option<Characteristic>)
    ensures
        r == first_with_uuid(cs@, id),
{
    let mut i: usize = 0;
    assert(cs@.skip(0) =~= cs@);
    while i < cs.len()
        invariant
            i <= cs@.len(),
            first_with_uuid(cs@, id) == first_with_uuid(cs@.skip(i as int), id),
        decreases cs@.len() - i,
    {
        assert(cs@.skip(i as int).drop_first() =~= cs@.skip(i + 1));
        if cs[i].uuid == id {
            return Some(cs[i]);
        }
        i = i + 1;
    }
    None
}

/// Picks the read and the write characteristic out of the discovered ones: the read
/// one is looked for first, and each missing one is its own error.
pub fn resolve_characteristics<E>(cs: &Vec<Characteristic>) -> (r: Result<
    (Characteristic, Characteristic),
    GrainfatherClientError<E>,
>)
    ensures
        first_with_uuid(cs@, CHARACTERISTIC_ID_READ) is None ==> r matches Err(
            GrainfatherClientError::ReadCharacteristic,
        ),
        first_with_uuid(cs@, CHARACTERISTIC_ID_READ) is Some && first_with_uuid(
            cs@,
            CHARACTERISTIC_ID_WRITE,
        ) is None ==> r matches Err(GrainfatherClientError::WriteCharacteristic),
        first_with_uuid(cs@, CHARACTERISTIC_ID_READ) is Some && first_with_uuid(
            cs@,
            CHARACTERISTIC_ID_WRITE,
        ) is Some ==> r == Ok::<(Characteristic, Characteristic), GrainfatherClientError<E>>(
            (
                first_with_uuid(cs@, CHARACTERISTIC_ID_READ)->0,
                first_with_uuid(cs@, CHARACTERISTIC_ID_WRITE)->0,
            ),
        ),
{
    let read = match find_characteristic(cs, CHARACTERISTIC_ID_READ) {
        Some(c) => c,
        None => return Err(GrainfatherClientError::ReadCharacteristic),
    };
    let write = match find_characteristic(cs, CHARACTERISTIC_ID_WRITE) {
        Some(c) => c,
        None => return Err(GrainfatherClientError::WriteCharacteristic),
    };
    Ok((read, write))
}

/// Feeds one raw chunk to the buffer and decodes every whole record it completes,
/// in arrival order. A record that fails to decode yields its own error and does
/// not affect the records around it.
pub fn decode_chunk(buffer: &mut ReassemblyBuffer, chunk: &[u8]) -> (r: Vec<
    Result<GrainfatherNotification, GrainfatherNotificationConvertError>,
>)
    requires
        old(buffer)@.len() + chunk@.len() <= usize::MAX,
    ensures
        r@.len() == records_of(old(buffer)@ + chunk@).len(),
        forall|i: int|
            0 <= i < r@.len() ==> result_view(#[trigger] r@[i]) == decode_record(
                records_of(old(buffer)@ + chunk@)[i],
            ),
        final(buffer)@ == tail_of(old(buffer)@ + chunk@),
        final(buffer).wf(),
{
    let records = buffer.push(chunk);
    let ghost rs = records_of(old(buffer)@ + chunk@);
    let mut out: Vec<Result<GrainfatherNotification, GrainfatherNotificationConvertError>> =
        Vec::new();
    let mut i: usize = 0;
    while i < records.len()
        invariant
            records.deep_view() == rs,
            i <= records@.len(),
            out@.len() == i,
            forall|k: int| 0 <= k < i ==> result_view(#[trigger] out@[k]) == decode_record(rs[k]),
        decreases records@.len() - i,
    {
        assert(records.deep_view()[i as int] =~= records@[i as int]@);
        out.push(GrainfatherNotification::try_from(records[i].as_slice()));
        i = i + 1;
    }
    out
}

/// The receiving end of a subscription: the reassembly buffer that the notification
/// callback owns, together with the whole stream it has been fed.
pub struct NotificationFeed {
    buffer: ReassemblyBuffer,
    received: Ghost<Seq<u8>>,
}

impl NotificationFeed {
    /// Every byte received so far, in arrival order.
    pub closed spec fn received(&self) -> Seq<u8> {
        self.received@
    }

    /// The bytes retained for the next chunk.
    pub closed spec fn retained(&self) -> Seq<u8> {
        self.buffer@
    }

    /// The retained bytes are the tail of everything received, shorter than a record.
    pub open spec fn wf(&self) -> bool {
        &&& self.retained() == tail_of(self.received())
        &&& self.retained().len() < NOTIFICATION_LEN
    }

    /// A feed that has received nothing.
    pub fn new() -> (r: Self)
        ensures
            r.wf(),
            r.received() == Seq::<u8>::empty(),
    {
        NotificationFeed { buffer: ReassemblyBuffer::new(), received: Ghost(Seq::empty()) }
    }

    /// Number of bytes retained for the next chunk.
    pub fn retained_len(&self) -> (r: usize)
        ensures
            r == self.retained().len(),
    {
        self.buffer.tail_len()
    }

    /// Takes one raw chunk and returns the decoded records it completes, in arrival
    /// order: over the life of the feed, the results returned so far are the decoded
    /// records of everything received, one per record, whatever the chunking was.
    pub fn receive(&mut self, chunk: &[u8]) -> (r: Vec<
        Result<GrainfatherNotification, GrainfatherNotificationConvertError>,
    >)
        requires
            old(self).wf(),
            chunk@.len() + NOTIFICATION_LEN <= usize::MAX,
        ensures
            final(self).wf(),
            final(self).received() == old(self).received() + chunk@,
            final(self).retained() == final(self).received().skip(
                17 * (final(self).received().len() as int / 17),
            ),
            records_of(final(self).received()).len() == records_of(old(self).received()).len()
                + r@.len(),
            forall|i: int|
                0 <= i < r@.len() ==> result_view(#[trigger] r@[i]) == decode_record(
                    records_of(final(self).received())[records_of(old(self).received()).len()
                        + i],
                ),
    {
        proof {
            lemma_records_append(self.received@, chunk@);
        }
        let r = decode_chunk(&mut self.buffer, chunk);
        self.received = Ghost(self.received@ + chunk@);
        proof {
            lemma_tail_is_suffix(self.received@);
        }
        r
    }
}

/// How far a session has got.
#[derive(Debug, Clone, Copy, PartialEq, Eq, Structural)]
pub enum SessionState {
    /// Characteristics resolved; commands may be written.
    Connected,
    /// Notifications requested from the read characteristic as well.
    Subscribed,
}

/// An open session with one appliance over a transport.
pub struct GrainfatherClient<T: GrainfatherClientImpl> {
    gf: T,
    read: Characteristic,
    write: Characteristic,
    state: SessionState,
}

impl<T: GrainfatherClientImpl> GrainfatherClient<T> {
    /// The resolved read characteristic.
    pub closed spec fn read_characteristic(&self) -> Characteristic {
        self.read
    }

    /// The resolved write characteristic.
    pub closed spec fn write_characteristic(&self) -> Characteristic {
        self.write
    }

    /// The session's state.
    pub closed spec fn spec_state(&self) -> SessionState {
        self.state
    }

    /// The transport the session talks through.
    pub closed spec fn transport(&self) -> T {
        self.gf
    }

    /// The resolved characteristics carry the read and the write identifier.
    pub open spec fn wf(&self) -> bool {
        self.read_characteristic().uuid == CHARACTERISTIC_ID_READ
            && self.write_characteristic().uuid == CHARACTERISTIC_ID_WRITE
    }

    /// Opens a session: connects if the transport is not connected yet, discovers the
    /// characteristics and resolves the read and the write one by identifier.
    pub fn try_from(gf: T) -> (r: Result<Self, GrainfatherClientError<T::Error>>)
        ensures
            r matches Ok(c) ==> c.wf() && c.spec_state() == SessionState::Connected
                && c.transport() == gf,
    {
        if !gf.is_connected() {
            match gf.connect() {
                Ok(()) => {},
                Err(e) => return Err(GrainfatherClientError::Connect(e)),
            }
        }
        let cs = match gf.discover_characteristics() {
            Ok(cs) => cs,
            Err(e) => return Err(GrainfatherClientError::DiscoverCharacteristics(e)),
        };
        let (read, write) = match resolve_characteristics(&cs) {
            Ok(pair) => pair,
            Err(e) => return Err(e),
        };
        proof {
            lemma_first_with_uuid(cs@, CHARACTERISTIC_ID_READ);
            lemma_first_with_uuid(cs@, CHARACTERISTIC_ID_WRITE);
        }
        Ok(GrainfatherClient { gf, read, write, state: SessionState::Connected })
    }

    /// The transport the session talks through.
    pub fn transport_ref(&self) -> (r: &T)
        ensures
            *r == self.transport(),
    {
        &self.gf
    }

    /// The session's state.
    pub fn state(&self) -> (r: SessionState)
        ensures
            r == self.spec_state(),
    {
        self.state
    }

    /// Encodes `command` and writes its frame to the write characteristic.
    pub fn command(&self, command: &GrainfatherCommand) -> (r: Result<(), T::Error>)
        requires
            self.wf(),
        ensures
            self.transport().wrote(self.write_characteristic(), command_frame(*command), r),
    {
        let frame = command.to_vec();
        self.gf.command(&self.write, frame.as_slice())
    }

    /// Writes the recipe's frames to the write characteristic in step order,
    /// stopping at the first write that fails.
    pub fn send_recipe(&self, recipe: &Recipe) -> (r: Result<(), T::Error>)
        requires
            self.wf(),
        ensures
            r is Ok ==> forall|i: int|
                0 <= i < recipe.steps@.len() ==> #[trigger] self.transport().wrote(
                    self.write_characteristic(),
                    command_frame(recipe.steps@[i]),
                    Ok::<(), T::Error>(()),
                ),
            r is Err ==> exists|i: int|
                0 <= i < recipe.steps@.len() && #[trigger] self.transport().wrote(
                    self.write_characteristic(),
                    command_frame(recipe.steps@[i]),
                    r,
                ) && forall|j: int|
                    0 <= j < i ==> #[trigger] self.transport().wrote(
                        self.write_characteristic(),
                        command_frame(recipe.steps@[j]),
                        Ok::<(), T::Error>(()),
                    ),
    {
        let frames = recipe.to_commands();
        let mut i: usize = 0;
        while i < frames.len()
            invariant
                self.wf(),
                i <= frames@.len(),
                frames@.len() == recipe.steps@.len(),
                forall|k: int|
                    0 <= k < frames@.len() ==> #[trigger] frames@[k]@ == command_frame(
                        recipe.steps@[k],
                    ),
                forall|k: int|
                    0 <= k < i ==> #[trigger] self.transport().wrote(
                        self.write_characteristic(),
                        command_frame(recipe.steps@[k]),
                        Ok::<(), T::Error>(()),
                    ),
            decreases frames@.len() - i,
        {
            proof {
                lemma_command_frame_len(recipe.steps@[i as int]);
            }
            let frame = frames[i].as_slice();
            assert(frame@ == command_frame(recipe.steps@[i as int]));
            let written = self.gf.command(&self.write, frame);
            assert(self.gf.wrote(self.write, frame@, written));
            match written {
                Ok(u) => {
                    assert(written == Ok::<(), T::Error>(u));
                    assert(u == ());
                },
                Err(e) => {
                    assert(self.transport().wrote(
                        self.write_characteristic(),
                        command_frame(recipe.steps@[i as int]),
                        Err(e),
                    ));
                    return Err(e);
                },
            }
            i = i + 1;
        }
        Ok(())
    }

    /// Asks the transport for notifications from the read characteristic. On success
    /// the session is subscribed; on failure it is left as it was.
    pub fn subscribe(&mut self) -> (r: Result<(), T::Error>)
        requires
            old(self).wf(),
            old(self).spec_state() == SessionState::Connected,
        ensures
            final(self).wf(),
            final(self).read_characteristic() == old(self).read_characteristic(),
            final(self).write_characteristic() == old(self).write_characteristic(),
            r is Ok ==> final(self).spec_state() == SessionState::Subscribed,
            r is Err ==> final(self).spec_state() == old(self).spec_state(),
    {
        let r = self.gf.subscribe(&self.read);
        if r.is_ok() {
            self.state = SessionState::Subscribed;
        }
        r
    }
}

/// A characteristic found by identifier has that identifier.
pub proof fn lemma_first_with_uuid(cs: Seq<Characteristic>, id: u128)
    ensures
        first_with_uuid(cs, id) matches Some(c) ==> c.uuid == id,
    decreases cs.len(),
{
    if cs.len() > 0 && cs[0].uuid != id {
        lemma_first_with_uuid(cs.drop_first(), id);
    }
}

} // verus!
