use vstd::prelude::*;

verus! {

use vstd::hash_map::StringHashMap;
use crate::audio::DeviceKind;
use crate::audio::PulseBM;

/// Volume, in protocol units, that the daemon treats as 100 % ("normal").
pub const VOLUME_NORM: u32 = 65536;

/// Largest volume, in protocol units, that the protocol accepts.
pub const VOLUME_MAX: u32 = 2147483647;

/// Largest number of channels one device can have.
pub const CHANNELS_MAX: usize = 32;

/// Errors surfaced by the client side of the audio backend.
#[derive(Debug, Clone, Copy, PartialEq, Eq, Structural)]
pub enum PulseError {
    /// The request queue's receiving end is gone: the worker thread has
    /// stopped.
    Disconnected,
    /// A volume command was issued before any volume was ever cached.
    VolumeUnknown,
    /// The waker's pipe could not be created or written.
    Pipe,
    /// One pass of the event loop failed or the loop quit.
    Iterate,
    /// The protocol context reported failure or termination.
    ContextFailed,
}

/// `p` per cent of the normal volume, in protocol units, rounded to the
/// nearest unit.
pub open spec fn percent_to_units(p: int) -> int
    recommends
        p >= 0,
{
    (p * 65536 + 50) / 100
}

/// A volume step given in per cent of the normal volume, converted to
/// protocol units, rounded away from zero.
pub open spec fn step_to_units(step: int) -> int {
    if step >= 0 {
        (step * 65536 + 50) / 100
    } else {
        -((-step * 65536 + 50) / 100)
    }
}

/// One channel's new volume after applying `step` (in per cent of normal):
/// floored at zero, capped at `max_vol` per cent of normal when given, and
/// always capped at the protocol maximum.
pub open spec fn apply_step_spec(v: int, step: int, max_vol: Option<u32>) -> int {
    let uncapped = if v + step_to_units(step) < 0 {
        0
    } else {
        v + step_to_units(step)
    };
    let capped = match max_vol {
        Some(m) => if uncapped > percent_to_units(m as int) {
            percent_to_units(m as int)
        } else {
            uncapped
        },
        None => uncapped,
    };
    if capped > VOLUME_MAX as int {
        VOLUME_MAX as int
    } else {
        capped
    }
}

/// Sum of a sequence of channel volumes.
pub open spec fn sum_seq(s: Seq<u32>) -> int
    decreases s.len(),
{
    if s.len() == 0 {
        0
    } else {
        sum_seq(s.drop_last()) + s.last()
    }
}

/// Mean channel volume in protocol units (zero for no channels).
pub open spec fn avg_units(s: Seq<u32>) -> int {
    if s.len() == 0 {
        0
    } else {
        sum_seq(s) / s.len() as int
    }
}

/// Protocol units expressed as a percentage of normal, rounded to the
/// nearest per cent.
pub open spec fn units_to_percent(u: int) -> int {
    (u * 100 + 32768) / 65536
}

/// The view of an optional owned string.
pub open spec fn opt_view(o: Option<String>) -> Option<Seq<char>> {
    match o {
        Some(s) => Some(s@),
        None => None,
    }
}

/// Mathematical model of a [`VolInfo`].
pub struct VolInfoV {
    pub volume: Seq<u32>,
    pub mute: bool,
    pub name: Seq<char>,
    pub description: Option<Seq<char>>,
    pub active_port: Option<Seq<char>>,
    pub form_factor: Option<Seq<char>>,
}

/// Snapshot of one device's volume, mute flag and descriptive metadata,
/// as parsed from a daemon query result. Immutable once constructed; a
/// registry entry is always replaced wholesale by a fresh `VolInfo`.
#[derive(Debug)]
pub struct VolInfo {
    volume: Vec<u32>,
    mute: bool,
    name: String,
    description: Option<String>,
    active_port: Option<String>,
    form_factor: Option<String>,
}

impl View for VolInfo {
    type V = VolInfoV;

    closed spec fn view(&self) -> VolInfoV {
        VolInfoV {
            volume: self.volume@,
            mute: self.mute,
            name: self.name@,
            description: opt_view(self.description),
            active_port: opt_view(self.active_port),
            form_factor: opt_view(self.form_factor),
        }
    }
}

impl VolInfo {
    /// The channel count never exceeds the protocol's limit.
    pub open spec fn wf(&self) -> bool {
        self@.volume.len() <= CHANNELS_MAX
    }

    /// Builds the snapshot from the fields of a daemon answer; a record
    /// without a name is rejected.
    pub fn from_parts(
        name: Option<String>,
        volume: Vec<u32>,
        mute: bool,
        description: Option<String>,
        active_port: Option<String>,
        form_factor: Option<String>,
    ) -> (r: Option<VolInfo>)
        requires
            volume@.len() <= CHANNELS_MAX,
        ensures
            match r {
                Some(info) => info.wf() && (name matches Some(n) && info@ == (VolInfoV {
                    volume: volume@,
                    mute,
                    name: n@,
                    description: opt_view(description),
                    active_port: opt_view(active_port),
                    form_factor: opt_view(form_factor),
                })),
                None => name is None,
            },
    {
        match name {
            None => None,
            Some(n) => Some(VolInfo {
                volume,
                mute,
                name: n,
                description,
                active_port,
                form_factor,
            }),
        }
    }
}

/// Mathematical model of [`DefaultDeviceNames`].
pub struct DefaultNamesV {
    pub sink: Seq<char>,
    pub source: Seq<char>,
}

/// The two process-wide default device names, updated whenever the daemon
/// reports a server-info change.
pub struct DefaultDeviceNames {
    sink: String,
    source: String,
}

impl View for DefaultDeviceNames {
    type V = DefaultNamesV;

    closed spec fn view(&self) -> DefaultNamesV {
        DefaultNamesV { sink: self.sink@, source: self.source@ }
    }
}

impl DefaultDeviceNames {
    /// Starts from the daemon's well-known placeholder names.
    pub fn new() -> (r: DefaultDeviceNames)
        ensures
            r@.sink == "@DEFAULT_SINK@"@,
            r@.source == "@DEFAULT_SOURCE@"@,
    {
        DefaultDeviceNames {
            sink: String::from_str("@DEFAULT_SINK@"),
            source: String::from_str("@DEFAULT_SOURCE@"),
        }
    }

    /// Replaces whichever of the two names the server reported.
    pub fn apply_server_info(
        &mut self,
        default_sink: Option<String>,
        default_source: Option<String>,
    )
        ensures
            final(self)@.sink == match default_sink {
                Some(s) => s@,
                None => old(self)@.sink,
            },
            final(self)@.source == match default_source {
                Some(s) => s@,
                None => old(self)@.source,
            },
    {
        match default_sink {
            Some(s) => {
                self.sink = s;
            },
            None => {},
        }
        match default_source {
            Some(s) => {
                self.source = s;
            },
            None => {},
        }
    }
}

/// Shared cache of the last-known per-device state: one record per
/// (kind, canonical name), each replaced atomically as a whole.
pub struct DeviceRegistry {
    sinks: StringHashMap<VolInfo>,
    sources: StringHashMap<VolInfo>,
}

impl View for DeviceRegistry {
    type V = Map<(DeviceKind, Seq<char>), VolInfo>;

    closed spec fn view(&self) -> Map<(DeviceKind, Seq<char>), VolInfo> {
        Map::new(
            |k: (DeviceKind, Seq<char>)|
                match k.0 {
                    DeviceKind::Sink => self.sinks@.contains_key(k.1),
                    DeviceKind::Source => self.sources@.contains_key(k.1),
                },
            |k: (DeviceKind, Seq<char>)|
                match k.0 {
                    DeviceKind::Sink => self.sinks@[k.1],
                    DeviceKind::Source => self.sources@[k.1],
                },
        )
    }
}

impl DeviceRegistry {
    /// Every cached record respects the protocol's channel limit.
    pub open spec fn wf(&self) -> bool {
        forall|k: (DeviceKind, Seq<char>)|
            #[trigger] self@.dom().contains(k) ==> self@[k].wf()
    }

    /// An empty registry.
    pub fn new() -> (r: DeviceRegistry)
        ensures
            r@ == Map::<(DeviceKind, Seq<char>), VolInfo>::empty(),
            r.wf(),
    {
        let r = DeviceRegistry { sinks: StringHashMap::new(), sources: StringHashMap::new() };
        proof {
            assert(r@ =~= Map::<(DeviceKind, Seq<char>), VolInfo>::empty());
        }
        r
    }

    /// Stores the record under (kind, its canonical name), replacing any
    /// previous record wholesale.
    pub fn insert(&mut self, kind: DeviceKind, info: VolInfo)
        requires
            old(self).wf(),
            info.wf(),
        ensures
            final(self)@ == old(self)@.insert((kind, info@.name), info),
            final(self).wf(),
    {
        let ghost k: (DeviceKind, Seq<char>) = (kind, info@.name);
        let ghost oldv = old(self)@;
        match kind {
            DeviceKind::Sink => {
                let name = info.name.clone();
                self.sinks.insert(name, info);
            },
            DeviceKind::Source => {
                let name = info.name.clone();
                self.sources.insert(name, info);
            },
        }
        proof {
            assert(self@ =~= oldv.insert(k, info));
        }
    }

    /// Looks a record up by kind and canonical name.
    pub fn get(&self, kind: DeviceKind, name: &str) -> (r: Option<&VolInfo>)
        ensures
            match r {
                Some(info) => self@.dom().contains((kind, name@)) && *info == self@[(
                    kind,
                    name@,
                )],
                None => !self@.dom().contains((kind, name@)),
            },
    {
        match kind {
            DeviceKind::Sink => self.sinks.get(name),
            DeviceKind::Source => self.sources.get(name),
        }
    }
}

/// One outbound command for the worker thread; consumed exactly once.
#[derive(Debug)]
pub enum ClientRequest {
    GetDefaultDevice,
    GetInfoByName(DeviceKind, String),
    SetVolumeByName(DeviceKind, String, Vec<u32>),
    SetMuteByName(DeviceKind, String, bool),
}

/// Declares async_channel's sending end so it can stand in fields and
/// signatures; its values stay opaque.
#[verifier::external_type_specification]
#[verifier::external_body]
#[verifier::reject_recursive_types(T)]
pub struct ExAsyncSender<T>(async_channel::Sender<T>);

/// Declares the standard queue's sending end; its values stay opaque.
#[verifier::external_type_specification]
#[verifier::external_body]
#[verifier::reject_recursive_types(T)]
pub struct ExMpscSender<T>(std::sync::mpsc::Sender<T>);

/// Declares the standard queue's receiving end; its values stay opaque.
#[verifier::external_type_specification]
#[verifier::external_body]
#[verifier::reject_recursive_types(T)]
pub struct ExMpscReceiver<T>(std::sync::mpsc::Receiver<T>);

/// Relies on async_channel::Sender::force_send: queues the message
/// without blocking, displacing the channel's oldest pending message
/// when it is full, and fails only when the channel is closed (a
/// channel closes once every receiver is dropped).
#[verifier::external_body]
pub(crate) fn force_send_message(tx: &async_channel::Sender<PulseBM>, msg: PulseBM) -> (ok: bool) {
    tx.force_send(msg).is_ok()
}

/// Relies on std::sync::mpsc::Sender::send: hands the request to the
/// queue unless the receiving end has been dropped.
#[verifier::external_body]
pub(crate) fn send_request(tx: &std::sync::mpsc::Sender<ClientRequest>, req: ClientRequest) -> (ok:
    bool) {
    tx.send(req).is_ok()
}

/// What one non-blocking poll of the request queue produced.
pub enum RecvOutcome {
    /// A queued request.
    Request(ClientRequest),
    /// The queue is currently drained.
    Empty,
    /// Every sending end is gone; no request can ever arrive again.
    Disconnected,
}

/// Relies on std::sync::mpsc::Receiver::try_recv: pops a queued request
/// without blocking, or reports the queue empty or disconnected.
#[verifier::external_body]
pub(crate) fn try_recv_request(rx: &std::sync::mpsc::Receiver<ClientRequest>) -> (r: RecvOutcome) {
    match rx.try_recv() {
        Ok(req) => RecvOutcome::Request(req),
        Err(std::sync::mpsc::TryRecvError::Empty) => RecvOutcome::Empty,
        Err(std::sync::mpsc::TryRecvError::Disconnected) => RecvOutcome::Disconnected,
    }
}

/// Relies on nix::unistd::pipe2: creates a connected pair of file
/// descriptors (read end, write end) with close-on-exec set.
#[verifier::external_body]
fn pipe_pair() -> (r: Option<(i32, i32)>) {
    match nix::unistd::pipe2(nix::fcntl::OFlag::O_CLOEXEC) {
        Ok((rx, tx)) => Some((rx, tx)),
        Err(_) => None,
    }
}

/// Relies on nix::unistd::write: writes one byte to the descriptor,
/// failing when the descriptor is closed or invalid.
#[verifier::external_body]
fn write_one_byte(fd: i32) -> (ok: bool) {
    let buf: [u8; 1] = [0u8];
    nix::unistd::write(fd, &buf).is_ok()
}

/// Relies on nix::unistd::read: consumes and discards whatever bytes are
/// pending on the descriptor.
#[verifier::external_body]
fn read_and_discard(fd: i32) {
    let mut buf: [u8; 32] = [0u8; 32];
    let _ = nix::unistd::read(fd, &mut buf);
}

/// Cross-thread interrupt for the worker's blocking wait: writing one
/// byte to the pipe unblocks a wait that watches the read end.
#[derive(Debug, Clone, Copy)]
pub struct MainloopWaker {
    pipe_tx: i32,
    pipe_rx: i32,
}

impl MainloopWaker {
    /// Opens the pipe; None when the system refuses a descriptor pair.
    pub fn new() -> (r: Option<MainloopWaker>) {
        match pipe_pair() {
            Some((rx, tx)) => Some(MainloopWaker { pipe_tx: tx, pipe_rx: rx }),
            None => None,
        }
    }

    /// Nudges the worker thread. Best effort: an error only means the
    /// wait may last until its next natural wakeup.
    pub fn wake(&self) -> (r: Result<(), PulseError>)
        ensures
            r is Err ==> r == Err::<(), PulseError>(PulseError::Pipe),
    {
        if write_one_byte(self.pipe_tx) {
            Ok(())
        } else {
            Err(PulseError::Pipe)
        }
    }

    /// The read end, for the event loop to watch.
    pub fn read_fd(&self) -> i32 {
        self.pipe_rx
    }

    /// Discards pending wake bytes; the loop calls this when the read
    /// end becomes readable.
    pub fn drain(&self) {
        read_and_discard(self.pipe_rx);
    }
}

/// `s` is `t` with zero or more elements removed, order kept.
pub open spec fn is_subsequence<T>(s: Seq<T>, t: Seq<T>) -> bool
    decreases s.len() + t.len(),
{
    if s.len() == 0 {
        true
    } else if t.len() == 0 {
        false
    } else {
        (s.last() == t.last() && is_subsequence(s.drop_last(), t.drop_last())) || is_subsequence(
            s,
            t.drop_last(),
        )
    }
}

/// A subsequence is never longer than the sequence it came from.
pub proof fn lemma_subsequence_len<T>(s: Seq<T>, t: Seq<T>)
    requires
        is_subsequence(s, t),
    ensures
        s.len() <= t.len(),
    decreases s.len() + t.len(),
{
    if s.len() == 0 {
    } else if t.len() == 0 {
    } else {
        if s.last() == t.last() && is_subsequence(s.drop_last(), t.drop_last()) {
            lemma_subsequence_len(s.drop_last(), t.drop_last());
        } else {
            lemma_subsequence_len(s, t.drop_last());
        }
    }
}

proof fn lemma_subsequence_extend_sup<T>(s: Seq<T>, t: Seq<T>, x: T)
    requires
        is_subsequence(s, t),
    ensures
        is_subsequence(s, t.push(x)),
{
    assert(t.push(x).drop_last() =~= t);
}

proof fn lemma_subsequence_extend_both<T>(s: Seq<T>, t: Seq<T>, x: T)
    requires
        is_subsequence(s, t),
    ensures
        is_subsequence(s.push(x), t.push(x)),
{
    assert(s.push(x).drop_last() =~= s);
    assert(t.push(x).drop_last() =~= t);
}

/// The elements of `s` kept where the matching flag is set, order
/// preserved.
pub open spec fn kept_by<T>(s: Seq<T>, ok: Seq<bool>) -> Seq<T>
    recommends
        s.len() == ok.len(),
    decreases s.len(),
{
    if s.len() == 0 {
        Seq::empty()
    } else {
        let rest = kept_by(s.drop_last(), ok.drop_last());
        if ok.last() {
            rest.push(s.last())
        } else {
            rest
        }
    }
}

/// The one message the fan-out ever delivers: the "state changed,
/// re-fetch the current value" nudge.
pub fn update_message() -> (m: PulseBM)
    ensures
        m == PulseBM::GetVolume,
{
    PulseBM::GetVolume
}

/// The fan-out list: every registered sender is offered each update
/// notification; senders whose receiver is gone are pruned lazily on the
/// next notification attempt.
pub struct EventListeners {
    senders: Vec<async_channel::Sender<PulseBM>>,
}

impl View for EventListeners {
    type V = Seq<async_channel::Sender<PulseBM>>;

    closed spec fn view(&self) -> Seq<async_channel::Sender<PulseBM>> {
        self.senders@
    }
}

impl EventListeners {
    /// An empty fan-out list.
    pub fn new() -> (r: EventListeners)
        ensures
            r@ == Seq::<async_channel::Sender<PulseBM>>::empty(),
    {
        let r = EventListeners { senders: Vec::new() };
        proof {
            assert(r@ =~= Seq::<async_channel::Sender<PulseBM>>::empty());
        }
        r
    }

    /// Registers one more interested output channel.
    pub fn register(&mut self, tx: async_channel::Sender<PulseBM>)
        ensures
            final(self)@ == old(self)@.push(tx),
    {
        self.senders.push(tx);
    }

    /// How many senders are currently registered.
    pub fn count(&self) -> (n: usize)
        ensures
            n == self@.len(),
    {
        self.senders.len()
    }
}

/// Owns the request-sending end of the worker's queue and the waker.
pub struct Client {
    send_req: std::sync::mpsc::Sender<ClientRequest>,
    ml_waker: MainloopWaker,
}

impl Client {
    /// Wires a client from the queue's sending end and a waker; the
    /// worker thread owning the other ends is started by the caller.
    pub fn new(send_req: std::sync::mpsc::Sender<ClientRequest>, ml_waker: MainloopWaker) -> (c:
        Client) {
        Client { send_req, ml_waker }
    }

    /// Queues one request and nudges the worker. The nudge is best
    /// effort; only a dead queue is reported, as an error.
    pub fn send(&self, request: ClientRequest) -> (r: Result<(), PulseError>)
        ensures
            r is Err ==> r == Err::<(), PulseError>(PulseError::Disconnected),
    {
        if send_request(&self.send_req, request) {
            let _wake = self.ml_waker.wake();
            Ok(())
        } else {
            Err(PulseError::Disconnected)
        }
    }

    /// Offers every registered listener one update notification, never
    /// blocking: a full channel has its oldest pending message displaced
    /// instead. Only a sender whose channel is closed -- its receiver is
    /// gone -- refuses the message, and exactly those senders are
    /// dropped. The returned flags say, sender by sender and in order,
    /// whose delivery was accepted; the kept list is exactly the old one
    /// filtered to the accepted senders.
    pub fn send_update_event(listeners: &mut EventListeners) -> (delivered: Vec<bool>)
        ensures
            delivered@.len() == old(listeners)@.len(),
            final(listeners)@ == kept_by(old(listeners)@, delivered@),
            is_subsequence(final(listeners)@, old(listeners)@),
            final(listeners)@.len() <= old(listeners)@.len(),
    {
        let mut pending: Vec<async_channel::Sender<PulseBM>> = Vec::new();
        core::mem::swap(&mut listeners.senders, &mut pending);
        let ghost orig = pending@;
        proof {
            assert(pending@ =~= orig.subrange(0, orig.len() as int));
        }
        let mut delivered: Vec<bool> = Vec::new();
        let ghost mut k: int = 0;
        while pending.len() > 0
            invariant
                0 <= k,
                k + pending@.len() == orig.len(),
                pending@ == orig.subrange(k, orig.len() as int),
                delivered@.len() == k,
                listeners.senders@ == kept_by(orig.take(k), delivered@),
                is_subsequence(listeners.senders@, orig.take(k)),
            decreases pending@.len(),
        {
            let tx = pending.remove(0);
            proof {
                assert(tx == orig[k]);
                assert(pending@ =~= orig.subrange(k + 1, orig.len() as int));
            }
            let accepted = force_send_message(&tx, update_message());
            proof {
                if accepted {
                    lemma_subsequence_extend_both(listeners.senders@, orig.take(k), orig[k]);
                } else {
                    lemma_subsequence_extend_sup(listeners.senders@, orig.take(k), orig[k]);
                }
                assert(orig.take(k).push(orig[k]) =~= orig.take(k + 1));
            }
            if accepted {
                listeners.senders.push(tx);
            }
            let ghost before = delivered@;
            delivered.push(accepted);
            proof {
                assert(orig.take(k + 1).drop_last() =~= orig.take(k));
                assert(delivered@.drop_last() =~= before);
                assert(orig.take(k + 1).last() == orig[k]);
                k = k + 1;
            }
        }
        proof {
            assert(orig.take(orig.len() as int) =~= orig);
            lemma_subsequence_len(listeners.senders@, orig);
        }
        delivered
    }

    /// Applies a reported server-info change: each default name the
    /// server mentioned replaces the cached one, then every listener is
    /// notified. The returned flags are the fan-out's per-sender
    /// delivery outcomes.
    pub fn server_info_callback(
        names: &mut DefaultDeviceNames,
        listeners: &mut EventListeners,
        default_sink: Option<String>,
        default_source: Option<String>,
    ) -> (delivered: Vec<bool>)
        ensures
            final(names)@.sink == match default_sink {
                Some(s) => s@,
                None => old(names)@.sink,
            },
            final(names)@.source == match default_source {
                Some(s) => s@,
                None => old(names)@.source,
            },
            delivered@.len() == old(listeners)@.len(),
            final(listeners)@ == kept_by(old(listeners)@, delivered@),
            is_subsequence(final(listeners)@, old(listeners)@),
    {
        names.apply_server_info(default_sink, default_source);
        Client::send_update_event(listeners)
    }

    /// Stores a freshly parsed sink record and notifies listeners; a
    /// query that produced nothing changes nothing. The returned flags
    /// are the fan-out's per-sender delivery outcomes.
    pub fn sink_info_callback(
        registry: &mut DeviceRegistry,
        listeners: &mut EventListeners,
        vol_info: Option<VolInfo>,
    ) -> (delivered: Vec<bool>)
        requires
            old(registry).wf(),
            vol_info matches Some(info) ==> info.wf(),
        ensures
            final(registry).wf(),
            match vol_info {
                Some(info) => final(registry)@ == old(registry)@.insert(
                    (DeviceKind::Sink, info@.name),
                    info,
                ) && delivered@.len() == old(listeners)@.len() && final(listeners)@ == kept_by(
                    old(listeners)@,
                    delivered@,
                ) && is_subsequence(final(listeners)@, old(listeners)@),
                None => final(registry)@ == old(registry)@ && final(listeners)@ == old(
                    listeners,
                )@ && delivered@.len() == 0,
            },
    {
        match vol_info {
            Some(info) => {
                registry.insert(DeviceKind::Sink, info);
                Client::send_update_event(listeners)
            },
            None => Vec::new(),
        }
    }

    /// Stores a freshly parsed source record and notifies listeners; a
    /// query that produced nothing changes nothing. The returned flags
    /// are the fan-out's per-sender delivery outcomes.
    pub fn source_info_callback(
        registry: &mut DeviceRegistry,
        listeners: &mut EventListeners,
        vol_info: Option<VolInfo>,
    ) -> (delivered: Vec<bool>)
        requires
            old(registry).wf(),
            vol_info matches Some(info) ==> info.wf(),
        ensures
            final(registry).wf(),
            match vol_info {
                Some(info) => final(registry)@ == old(registry)@.insert(
                    (DeviceKind::Source, info@.name),
                    info,
                ) && delivered@.len() == old(listeners)@.len() && final(listeners)@ == kept_by(
                    old(listeners)@,
                    delivered@,
                ) && is_subsequence(final(listeners)@, old(listeners)@),
                None => final(registry)@ == old(registry)@ && final(listeners)@ == old(
                    listeners,
                )@ && delivered@.len() == 0,
            },
    {
        match vol_info {
            Some(info) => {
                registry.insert(DeviceKind::Source, info);
                Client::send_update_event(listeners)
            },
            None => Vec::new(),
        }
    }
}

/// Mathematical model of a [`Device`].
pub struct DeviceV {
    pub name: Option<Seq<char>>,
    pub description: Option<Seq<char>>,
    pub active_port: Option<Seq<char>>,
    pub form_factor: Option<Seq<char>>,
    pub device_kind: DeviceKind,
    pub volume: Option<Seq<u32>>,
    pub volume_avg: u32,
    pub muted: bool,
}

/// Consumer-facing handle for one logical sink or source: issues commands
/// through a [`Client`], mirrors cached state from the [`DeviceRegistry`],
/// and updates its own mirror optimistically when it issues a command.
pub struct Device {
    name: Option<String>,
    description: Option<String>,
    active_port: Option<String>,
    form_factor: Option<String>,
    device_kind: DeviceKind,
    volume: Option<Vec<u32>>,
    volume_avg: u32,
    muted: bool,
}

impl View for Device {
    type V = DeviceV;

    closed spec fn view(&self) -> DeviceV {
        DeviceV {
            name: opt_view(self.name),
            description: opt_view(self.description),
            active_port: opt_view(self.active_port),
            form_factor: opt_view(self.form_factor),
            device_kind: self.device_kind,
            volume: match self.volume {
                Some(v) => Some(v@),
                None => None,
            },
            volume_avg: self.volume_avg,
            muted: self.muted,
        }
    }
}

/// Per-channel result of a volume step, over a whole channel vector.
pub open spec fn apply_step_all(v: Seq<u32>, step: int, max_vol: Option<u32>) -> Seq<u32> {
    Seq::new(v.len(), |i: int| apply_step_spec(v[i] as int, step, max_vol) as u32)
}

/// The name a device resolves to: its explicit override if any, else the
/// current default name of its kind.
pub open spec fn resolved_name(d: DeviceV, names: DefaultNamesV) -> Seq<char> {
    match d.name {
        Some(n) => n,
        None => match d.device_kind {
            DeviceKind::Sink => names.sink,
            DeviceKind::Source => names.source,
        },
    }
}

/// The device state after a pull from the registry: on a hit, the
/// record's fields are mirrored and the average recomputed; on a miss,
/// the old state stays untouched.
pub open spec fn get_info_spec(
    d: DeviceV,
    m: Map<(DeviceKind, Seq<char>), VolInfo>,
    names: DefaultNamesV,
) -> DeviceV {
    let key = (d.device_kind, resolved_name(d, names));
    if m.dom().contains(key) {
        DeviceV {
            volume: Some(m[key]@.volume),
            volume_avg: units_to_percent(avg_units(m[key]@.volume)) as u32,
            muted: m[key]@.mute,
            description: m[key]@.description,
            active_port: m[key]@.active_port,
            form_factor: m[key]@.form_factor,
            ..d
        }
    } else {
        d
    }
}

/// A step in per cent, converted to protocol units (rounded away from
/// zero), computed without overflow.
fn step_units_of(step: i32) -> (u: i64)
    ensures
        u == step_to_units(step as int),
        -1407374883554 <= u <= 1407374883554,
{
    if step >= 0 {
        let n: u64 = (step as u64) * 65536 + 50;
        (n / 100) as i64
    } else {
        let m: u64 = ((-(step as i64)) as u64) * 65536 + 50;
        -((m / 100) as i64)
    }
}

/// A percentage cap, converted to protocol units.
fn percent_units_of(p: u32) -> (u: i64)
    ensures
        u == percent_to_units(p as int),
        0 <= u,
{
    let n: u64 = (p as u64) * 65536 + 50;
    (n / 100) as i64
}

impl DeviceKind {
    /// The daemon's current default device name for this kind.
    pub fn default_name(self, names: &DefaultDeviceNames) -> (r: String)
        ensures
            r@ == match self {
                DeviceKind::Sink => names@.sink,
                DeviceKind::Source => names@.source,
            },
    {
        match self {
            DeviceKind::Sink => names.sink.clone(),
            DeviceKind::Source => names.source.clone(),
        }
    }
}

impl Device {
    /// The cached channel vector never exceeds the protocol's limit.
    pub open spec fn wf(&self) -> bool {
        match self@.volume {
            Some(v) => v.len() <= CHANNELS_MAX,
            None => true,
        }
    }

    /// Registers the output channel in the fan-out list and asks the
    /// worker to fetch the default device and this device's info -- the
    /// latter exactly the request [`Self::info_request`] builds -- so
    /// the registry gets seeded. The fresh handle carries no cached
    /// state.
    pub fn new(
        device_kind: DeviceKind,
        name: Option<String>,
        tx: async_channel::Sender<PulseBM>,
        client: &Client,
        listeners: &mut EventListeners,
        names: &DefaultDeviceNames,
    ) -> (r: Result<Device, PulseError>)
        ensures
            final(listeners)@ == old(listeners)@.push(tx),
            match r {
                Ok(d) => d.wf() && d@ == (DeviceV {
                    name: opt_view(name),
                    description: None,
                    active_port: None,
                    form_factor: None,
                    device_kind,
                    volume: None,
                    volume_avg: 0,
                    muted: false,
                }),
                Err(e) => e == PulseError::Disconnected,
            },
    {
        listeners.register(tx);
        match client.send(ClientRequest::GetDefaultDevice) {
            Ok(_) => {},
            Err(e) => {
                return Err(e);
            },
        }
        let device = Device {
            name,
            description: None,
            active_port: None,
            form_factor: None,
            device_kind,
            volume: None,
            volume_avg: 0,
            muted: false,
        };
        let req = device.info_request(names);
        match client.send(req) {
            Ok(_) => {},
            Err(e) => {
                return Err(e);
            },
        }
        Ok(device)
    }

    /// Builds the info query this device would send: the request names
    /// this device's kind and resolved name.
    pub fn info_request(&self, names: &DefaultDeviceNames) -> (req: ClientRequest)
        ensures
            req matches ClientRequest::GetInfoByName(k, n) && k == self@.device_kind && n@
                == resolved_name(self@, names@),
    {
        let dev_name = self.name(names);
        ClientRequest::GetInfoByName(self.device_kind, dev_name)
    }

    /// The explicit name override if set, else the current default name
    /// of this device's kind, looked up at call time.
    pub fn name(&self, names: &DefaultDeviceNames) -> (r: String)
        ensures
            r@ == resolved_name(self@, names@),
    {
        match &self.name {
            Some(n) => n.clone(),
            None => self.device_kind.default_name(names),
        }
    }

    /// Replaces the cached channel vector and recomputes the cached
    /// average as a rounded percentage of the normal volume.
    fn set_volume_cache(&mut self, volume: Vec<u32>)
        requires
            volume@.len() <= CHANNELS_MAX,
        ensures
            final(self)@ == (DeviceV {
                volume: Some(volume@),
                volume_avg: units_to_percent(avg_units(volume@)) as u32,
                ..old(self)@
            }),
            final(self).wf(),
    {
        let mut sum: u64 = 0;
        let mut k: usize = 0;
        while k < volume.len()
            invariant
                k <= volume@.len() <= CHANNELS_MAX,
                sum == sum_seq(volume@.take(k as int)),
                sum <= k * 0xffff_ffffu64,
            decreases volume@.len() - k,
        {
            proof {
                assert(volume@.take(k as int + 1).drop_last() =~= volume@.take(k as int));
            }
            sum = sum + (volume[k] as u64);
            k = k + 1;
        }
        proof {
            assert(volume@.take(volume@.len() as int) =~= volume@);
        }
        let avg: u64 = if volume.len() == 0 {
            0
        } else {
            sum / (volume.len() as u64)
        };
        proof {
            assert(avg == avg_units(volume@));
        }
        let pct: u64 = (avg * 100 + 32768) / 65536;
        self.volume = Some(volume);
        self.volume_avg = pct as u32;
    }

    /// Average cached volume, as a percentage of the normal volume.
    pub fn volume(&self) -> (r: u32)
        ensures
            r == self@.volume_avg,
    {
        self.volume_avg
    }

    /// Cached mute flag.
    pub fn muted(&self) -> (r: bool)
        ensures
            r == self@.muted,
    {
        self.muted
    }

    /// The resolved device name, as shown to consumers.
    pub fn output_name(&self, names: &DefaultDeviceNames) -> (r: String)
        ensures
            r@ == resolved_name(self@, names@),
    {
        self.name(names)
    }

    /// Cached human-readable description, if any was ever reported.
    pub fn output_description(&self) -> (r: Option<String>)
        ensures
            opt_view(r) == self@.description,
    {
        match &self.description {
            Some(d) => Some(d.clone()),
            None => None,
        }
    }

    /// Cached active output port, if any was ever reported.
    pub fn active_port(&self) -> (r: Option<String>)
        ensures
            opt_view(r) == self@.active_port,
    {
        match &self.active_port {
            Some(p) => Some(p.clone()),
            None => None,
        }
    }

    /// Cached form factor, if any was ever reported.
    pub fn form_factor(&self) -> (r: Option<&str>)
        ensures
            match r {
                Some(s) => self@.form_factor == Some(s@),
                None => self@.form_factor is None,
            },
    {
        match &self.form_factor {
            Some(f) => Some(f.as_str()),
            None => None,
        }
    }

    /// Pulls this device's current record from the registry into the
    /// cached fields. A registry miss leaves every cached field exactly
    /// as it was: stale-but-valid rather than an error.
    pub fn get_info(&mut self, registry: &DeviceRegistry, names: &DefaultDeviceNames) -> (r:
        Result<(), PulseError>)
        requires
            registry.wf(),
            old(self).wf(),
        ensures
            r is Ok,
            final(self).wf(),
            final(self)@ == get_info_spec(old(self)@, registry@, names@),
            ({
                let key = (old(self)@.device_kind, resolved_name(old(self)@, names@));
                !registry@.dom().contains(key) ==> *final(self) == *old(self)
            }),
    {
        let dev_name = self.name(names);
        match registry.get(self.device_kind, dev_name.as_str()) {
            Some(info) => {
                let vol = clone_volumes(&info.volume);
                self.set_volume_cache(vol);
                self.muted = info.mute;
                self.description = clone_opt_string(&info.description);
                self.active_port = clone_opt_string(&info.active_port);
                self.form_factor = clone_opt_string(&info.form_factor);
            },
            None => {},
        }
        Ok(())
    }

    /// Builds the volume command this device would send for a step: the
    /// request names this device's kind and resolved name and carries
    /// exactly the stepped channel vector, every channel within the
    /// protocol range and under the given cap. Fails exactly when no
    /// volume was ever cached.
    pub fn volume_request(&self, step: i32, max_vol: Option<u32>, names: &DefaultDeviceNames) -> (r:
        Result<ClientRequest, PulseError>)
        ensures
            r is Err <==> self@.volume is None,
            r is Err ==> r == Err::<ClientRequest, PulseError>(PulseError::VolumeUnknown),
            r matches Ok(req) ==> (self@.volume matches Some(v) && (req
                matches ClientRequest::SetVolumeByName(k, n, nv) && k == self@.device_kind && n@
                == resolved_name(self@, names@) && nv@ == apply_step_all(v, step as int, max_vol)
                && (forall|i: int| 0 <= i < nv@.len() ==> 0 <= #[trigger] nv@[i] <= VOLUME_MAX)
                && (max_vol matches Some(m) ==> forall|i: int|
                0 <= i < nv@.len() ==> #[trigger] nv@[i] as int <= percent_to_units(m as int)))),
    {
        let volume = match &self.volume {
            None => {
                return Err(PulseError::VolumeUnknown);
            },
            Some(v) => v,
        };
        let newv = apply_step_channels(volume, step, max_vol);
        let dev_name = self.name(names);
        Ok(ClientRequest::SetVolumeByName(self.device_kind, dev_name, newv))
    }

    /// Applies a relative volume step, in per cent of the normal volume,
    /// to every cached channel: the result is floored at zero, capped at
    /// `max_vol` per cent of normal when given, and never exceeds the
    /// protocol maximum. Exactly the request [`Self::volume_request`]
    /// builds -- whose contract pins the vector on the wire -- is handed
    /// to the worker, and the cache is updated optimistically to the
    /// same vector, before any server round trip.
    pub fn set_volume(&mut self, step: i32, max_vol: Option<u32>, client: &Client, names:
        &DefaultDeviceNames) -> (r: Result<(), PulseError>)
        requires
            old(self).wf(),
        ensures
            final(self).wf(),
            old(self)@.volume is None <==> r == Err::<(), PulseError>(PulseError::VolumeUnknown),
            r is Err ==> *final(self) == *old(self),
            r is Ok ==> (old(self)@.volume matches Some(v) && {
                let nv = apply_step_all(v, step as int, max_vol);
                &&& final(self)@ == (DeviceV {
                    volume: Some(nv),
                    volume_avg: units_to_percent(avg_units(nv)) as u32,
                    ..old(self)@
                })
                &&& forall|i: int|
                    0 <= i < nv.len() ==> 0 <= #[trigger] nv[i] <= VOLUME_MAX
                &&& max_vol matches Some(m) ==> forall|i: int|
                    0 <= i < nv.len() ==> #[trigger] nv[i] as int <= percent_to_units(m as int)
            }),
    {
        let req = match self.volume_request(step, max_vol, names) {
            Ok(req) => req,
            Err(e) => {
                return Err(e);
            },
        };
        let newv = match &req {
            ClientRequest::SetVolumeByName(_, _, nv) => clone_volumes(nv),
            _ => unreached(),
        };
        match client.send(req) {
            Ok(_) => {},
            Err(e) => {
                return Err(e);
            },
        }
        self.set_volume_cache(newv);
        Ok(())
    }

    /// Builds the mute command this device would send: the request
    /// names this device's kind and resolved name and carries exactly
    /// the currently cached mute flag.
    pub fn mute_request(&self, names: &DefaultDeviceNames) -> (req: ClientRequest)
        ensures
            req matches ClientRequest::SetMuteByName(k, n, m) && k == self@.device_kind && n@
                == resolved_name(self@, names@) && m == self@.muted,
    {
        let dev_name = self.name(names);
        ClientRequest::SetMuteByName(self.device_kind, dev_name, self.muted)
    }

    /// Flips the cached mute flag optimistically and asks the worker to
    /// apply the new value: exactly the request [`Self::mute_request`]
    /// builds after the flip is handed to the worker.
    pub fn toggle(&mut self, client: &Client, names: &DefaultDeviceNames) -> (r: Result<
        (),
        PulseError,
    >)
        ensures
            final(self)@ == (DeviceV { muted: !old(self)@.muted, ..old(self)@ }),
            r is Err ==> r == Err::<(), PulseError>(PulseError::Disconnected),
    {
        self.muted = !self.muted;
        let req = self.mute_request(names);
        match client.send(req) {
            Ok(_) => {},
            Err(e) => {
                return Err(e);
            },
        }
        Ok(())
    }
}

/// Applies a volume step to every channel of a vector.
fn apply_step_channels(volume: &Vec<u32>, step: i32, max_vol: Option<u32>) -> (nv: Vec<u32>)
    ensures
        nv@ == apply_step_all(volume@, step as int, max_vol),
{
    let su = step_units_of(step);
    let cap: Option<i64> = match max_vol {
        Some(m) => Some(percent_units_of(m)),
        None => None,
    };
    let mut newv: Vec<u32> = Vec::new();
    let mut k: usize = 0;
    while k < volume.len()
        invariant
            k <= volume@.len(),
            su == step_to_units(step as int),
            -1407374883554 <= su <= 1407374883554,
            match max_vol {
                Some(m) => cap matches Some(c) && c == percent_to_units(m as int) && c >= 0,
                None => cap is None,
            },
            newv@.len() == k,
            forall|i: int|
                0 <= i < k ==> #[trigger] newv@[i] == apply_step_spec(
                    volume@[i] as int,
                    step as int,
                    max_vol,
                ),
        decreases volume@.len() - k,
    {
        let cur: i64 = volume[k] as i64;
        let mut x: i64 = cur + su;
        if x < 0 {
            x = 0;
        }
        match cap {
            Some(c) => {
                if x > c {
                    x = c;
                }
            },
            None => {},
        }
        let maxv: i64 = VOLUME_MAX as i64;
        if x > maxv {
            x = maxv;
        }
        newv.push(x as u32);
        k = k + 1;
    }
    proof {
        assert(newv@ =~= apply_step_all(volume@, step as int, max_vol));
    }
    newv
}

/// Copies a channel vector.
fn clone_volumes(v: &Vec<u32>) -> (r: Vec<u32>)
    ensures
        r@ == v@,
{
    let mut r: Vec<u32> = Vec::new();
    let mut k: usize = 0;
    while k < v.len()
        invariant
            k <= v@.len(),
            r@ == v@.take(k as int),
        decreases v@.len() - k,
    {
        r.push(v[k]);
        proof {
            assert(v@.take(k as int).push(v@[k as int]) =~= v@.take(k as int + 1));
        }
        k = k + 1;
    }
    proof {
        assert(v@.take(v@.len() as int) =~= v@);
    }
    r
}

/// Copies an optional string.
fn clone_opt_string(o: &Option<String>) -> (r: Option<String>)
    ensures
        opt_view(r) == opt_view(*o),
{
    match o {
        Some(s) => Some(s.clone()),
        None => None,
    }
}

/// Replaying the same record leaves the registry exactly as it was: the
/// update is idempotent.
pub proof fn lemma_registry_insert_idempotent(
    m: Map<(DeviceKind, Seq<char>), VolInfo>,
    kind: DeviceKind,
    info: VolInfo,
)
    ensures
        m.insert((kind, info@.name), info).insert((kind, info@.name), info) == m.insert(
            (kind, info@.name),
            info,
        ),
{
    assert(m.insert((kind, info@.name), info).insert((kind, info@.name), info) =~= m.insert(
        (kind, info@.name),
        info,
    ));
}

/// Storing an identical record twice leaves a device that pulls from
/// the registry in exactly the state one store gives it.
pub proof fn lemma_identical_update_keeps_device(
    d: DeviceV,
    m: Map<(DeviceKind, Seq<char>), VolInfo>,
    kind: DeviceKind,
    info: VolInfo,
    names: DefaultNamesV,
)
    ensures
        get_info_spec(d, m.insert((kind, info@.name), info).insert((kind, info@.name), info),
            names) == get_info_spec(d, m.insert((kind, info@.name), info), names),
{
    lemma_registry_insert_idempotent(m, kind, info);
}

} // verus!
