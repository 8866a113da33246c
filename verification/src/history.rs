//! What the proxy remembers for the clients that have yet to connect.

use vstd::prelude::*;

use crate::messages::{
    ArrowMsgProto, LogOrTableMsgProto, Msg, SizedMsg, StoreIdProto, StoreKindProto, store_kind,
};
use crate::options::PlaybackBehavior;
use crate::queue::{
    MsgQueue, drop_oldest, drop_oldest_frees_memory, select, select_is_filter, total_bytes,
    total_bytes_of_filter, total_bytes_of_push, total_bytes_of_select,
};
use crate::static_key::{key_of, other_keys};

verus! {

/// How long a message is kept.
pub enum Retention {
    /// For good: store infos, blueprint data, and blueprint activations.
    Persistent,
    /// As long as possible: chunks of a recording without a time.
    Static,
    /// Until memory runs short: all other recording data, tables, and commands.
    Disposable,
    /// Not at all: log messages without a payload.
    Rejected,
}

/// Whether a store id is there and names a blueprint.
pub open spec fn is_blueprint(id: Option<StoreIdProto>) -> bool {
    id matches Some(id) && store_kind(id.kind) == StoreKindProto::Blueprint
}

/// How long `msg` is kept.
pub open spec fn retention(msg: LogOrTableMsgProto) -> Retention {
    match msg {
        LogOrTableMsgProto::LogMsg(log_msg) => match log_msg.msg {
            None => Retention::Rejected,
            Some(Msg::SetStoreInfo(_)) => Retention::Persistent,
            Some(Msg::BlueprintActivationCommand(_)) => Retention::Persistent,
            Some(Msg::ArrowMsg(arrow)) => if is_blueprint(arrow.store_id) {
                Retention::Persistent
            } else if arrow.is_static == Some(true) {
                Retention::Static
            } else {
                Retention::Disposable
            },
        },
        _ => Retention::Disposable,
    }
}

/// Whether `msg` is kept at all, where `drop_temporal` says whether disposable messages are not.
pub open spec fn is_kept(drop_temporal: bool, msg: LogOrTableMsgProto) -> bool {
    match retention(msg) {
        Retention::Rejected => false,
        Retention::Disposable => !drop_temporal,
        _ => true,
    }
}

/// The store that a message belongs to, where it names one.
pub open spec fn store_id_of(msg: LogOrTableMsgProto) -> Option<StoreIdProto> {
    match msg {
        LogOrTableMsgProto::LogMsg(log_msg) => match log_msg.msg {
            Some(Msg::SetStoreInfo(set)) => match set.info {
                Some(info) => info.store_id,
                None => None,
            },
            Some(Msg::ArrowMsg(arrow)) => arrow.store_id,
            Some(Msg::BlueprintActivationCommand(cmd)) => cmd.blueprint_id,
            None => None,
        },
        _ => None,
    }
}

/// The recording id of the blueprint that `msg` activates.
pub open spec fn activated_blueprint(msg: LogOrTableMsgProto) -> Option<Seq<char>> {
    match msg {
        LogOrTableMsgProto::LogMsg(log_msg) => match log_msg.msg {
            Some(Msg::BlueprintActivationCommand(cmd)) => match cmd.blueprint_id {
                Some(id) => Some(id.recording_id@),
                None => None,
            },
            _ => None,
        },
        _ => None,
    }
}

/// Whether `msg` belongs to a blueprint other than the one with the recording id `active`.
pub open spec fn is_superseded(msg: LogOrTableMsgProto, active: Seq<char>) -> bool {
    store_id_of(msg) matches Some(id) && store_kind(id.kind) == StoreKindProto::Blueprint
        && id.recording_id@ != active
}

/// `msgs` without those of superseded blueprints.
pub open spec fn without_superseded(msgs: Seq<SizedMsg>, active: Seq<char>) -> Seq<SizedMsg> {
    msgs.filter(|m: SizedMsg| !is_superseded(m.msg, active))
}

/// `msgs` without those that have the key `key`.
pub open spec fn without_key(msgs: Seq<SizedMsg>, key: (Seq<char>, Seq<char>)) -> Seq<SizedMsg> {
    msgs.filter(|m: SizedMsg| key_of(m) != Some(key))
}

/// `msgs` with the chunk `m` behind them, in place of those that have its key, if it has one.
pub open spec fn replaced(msgs: Seq<SizedMsg>, m: SizedMsg) -> Seq<SizedMsg> {
    match key_of(m) {
        Some(key) => without_key(msgs, key).push(m),
        None => msgs.push(m),
    }
}

/// The contents of a history, each part oldest first.
#[verifier::ext_equal]
pub struct History {
    pub persistent: Seq<SizedMsg>,
    pub static_: Seq<SizedMsg>,
    pub disposable: Seq<SizedMsg>,
}

impl History {
    /// A history of nothing.
    pub open spec fn empty() -> History {
        History { persistent: Seq::empty(), static_: Seq::empty(), disposable: Seq::empty() }
    }

    /// The memory that it takes.
    pub open spec fn bytes(self) -> nat {
        total_bytes(self.disposable) + total_bytes(self.static_) + total_bytes(self.persistent)
    }

    /// What a client that connects is sent, in this order. The persistent and the static messages
    /// come before the disposable ones, whatever comes first within each part.
    pub open spec fn replay(self, playback: PlaybackBehavior) -> Seq<SizedMsg> {
        match playback {
            PlaybackBehavior::OldestFirst => self.persistent + self.static_ + self.disposable,
            PlaybackBehavior::NewestFirst => self.persistent.reverse() + self.static_.reverse()
                + self.disposable.reverse(),
        }
    }

    /// The history once `m` has been taken in.
    pub open spec fn added(self, drop_temporal: bool, m: SizedMsg) -> History {
        match retention(m.msg) {
            Retention::Persistent => {
                let persistent = self.persistent.push(m);
                match activated_blueprint(m.msg) {
                    Some(active) if drop_temporal => History {
                        persistent: without_superseded(persistent, active),
                        ..self
                    },
                    _ => History { persistent, ..self },
                }
            },
            Retention::Static => if drop_temporal {
                History { static_: replaced(self.static_, m), ..self }
            } else {
                History { static_: self.static_.push(m), ..self }
            },
            Retention::Disposable => if drop_temporal {
                self
            } else {
                History { disposable: self.disposable.push(m), ..self }
            },
            Retention::Rejected => self,
        }
    }

    /// The history once memory has been freed to get below `max_bytes`: the oldest disposable
    /// messages go first, then the oldest static ones, the persistent ones never.
    pub open spec fn collected(self, max_bytes: nat) -> History {
        if self.bytes() <= max_bytes {
            self
        } else {
            let disposable = drop_oldest(
                self.disposable,
                total_bytes(self.static_) + total_bytes(self.persistent),
                max_bytes,
            );
            let rest = total_bytes(disposable) + total_bytes(self.persistent);
            let static_ = if rest + total_bytes(self.static_) > max_bytes {
                drop_oldest(self.static_, rest, max_bytes)
            } else {
                self.static_
            };
            History { persistent: self.persistent, static_, disposable }
        }
    }
}

/// All messages received so far, minus those that were replaced or given up.
pub struct MessageBuffer {
    /// The first to go when memory runs short.
    pub disposable: MsgQueue,
    /// Chunks without a time. Usually logged once, and expected to stay around; the oldest go when
    /// memory is short and nothing disposable is left.
    pub static_: MsgQueue,
    /// Never given up.
    pub persistent: MsgQueue,
    /// Whether disposable messages are left out. Then blueprints that another one has superseded
    /// are left out too, and so are static chunks that were logged again.
    pub drop_temporal: bool,
}

impl View for MessageBuffer {
    type V = History;

    open spec fn view(&self) -> History {
        History {
            persistent: self.persistent@,
            static_: self.static_@,
            disposable: self.disposable@,
        }
    }
}

impl MessageBuffer {
    /// The counters are right, all memory can be counted, and under `drop_temporal` nothing
    /// disposable is held.
    pub open spec fn wf(&self) -> bool {
        &&& self.disposable.wf()
        &&& self.static_.wf()
        &&& self.persistent.wf()
        &&& self@.bytes() <= u64::MAX
        &&& self.drop_temporal ==> self.disposable@.len() == 0
    }

    /// Whether `m` can be taken in: if it is kept, the memory can still be counted.
    pub open spec fn can_add(&self, m: SizedMsg) -> bool {
        is_kept(self.drop_temporal, m.msg) ==> self@.bytes() + m.size_bytes <= u64::MAX
    }

    /// See [`MessageBuffer::can_add`].
    pub fn can_take(&self, m: &SizedMsg) -> (b: bool)
        requires
            self.wf(),
        ensures
            b == self.can_add(*m),
    {
        let kept: bool = match &m.msg {
            LogOrTableMsgProto::LogMsg(log_msg) => match &log_msg.msg {
                None => false,
                Some(Msg::ArrowMsg(arrow)) => !self.drop_temporal || in_blueprint(arrow)
                    || arrow.is_static == Some(true),
                Some(_) => true,
            },
            _ => !self.drop_temporal,
        };
        !kept || self.size_bytes() <= u64::MAX - m.size_bytes
    }

    /// A buffer without messages.
    pub fn new(drop_temporal: bool) -> (buffer: MessageBuffer)
        ensures
            buffer.wf(),
            buffer@ == History::empty(),
            buffer.drop_temporal == drop_temporal,
    {
        MessageBuffer {
            disposable: MsgQueue::new(),
            static_: MsgQueue::new(),
            persistent: MsgQueue::new(),
            drop_temporal,
        }
    }

    /// The memory that the messages take.
    pub fn size_bytes(&self) -> (n: u64)
        requires
            self.wf(),
        ensures
            n == self@.bytes(),
    {
        self.disposable.size_bytes() + self.static_.size_bytes() + self.persistent.size_bytes()
    }

    /// What a client that connects is sent, in this order.
    pub fn all(&self, playback_behavior: PlaybackBehavior) -> (msgs: Vec<&LogOrTableMsgProto>)
        ensures
            msgs@.len() == self@.replay(playback_behavior).len(),
            forall|i: int|
                0 <= i < msgs@.len() ==> *(#[trigger] msgs@[i]) == self@.replay(playback_behavior)[i].msg,
    {
        let newest_first: bool = match playback_behavior {
            PlaybackBehavior::OldestFirst => false,
            PlaybackBehavior::NewestFirst => true,
        };
        let mut msgs: Vec<&LogOrTableMsgProto> = Vec::new();
        append_refs(&mut msgs, &self.persistent, newest_first);
        append_refs(&mut msgs, &self.static_, newest_first);
        append_refs(&mut msgs, &self.disposable, newest_first);
        msgs
    }

    /// The store that a message belongs to, or `None` for one that names no store.
    pub fn message_store_id(msg: &LogOrTableMsgProto) -> (id: Option<&StoreIdProto>)
        ensures
            match id {
                Some(id) => store_id_of(*msg) == Some(*id),
                None => store_id_of(*msg) is None,
            },
    {
        match msg {
            LogOrTableMsgProto::LogMsg(log_msg) => match &log_msg.msg {
                Some(Msg::SetStoreInfo(set)) => match &set.info {
                    Some(info) => info.store_id.as_ref(),
                    None => None,
                },
                Some(Msg::ArrowMsg(arrow)) => arrow.store_id.as_ref(),
                Some(Msg::BlueprintActivationCommand(cmd)) => cmd.blueprint_id.as_ref(),
                None => None,
            },
            _ => None,
        }
    }

    /// Gives up every blueprint other than `active`: its store info, its chunks, and what
    /// activated it. Messages of recordings and messages that name no store stay.
    pub fn evict_superseded_blueprints(&mut self, active: &StoreIdProto)
        requires
            old(self).wf(),
        ensures
            final(self).wf(),
            final(self).drop_temporal == old(self).drop_temporal,
            final(self)@ == (History {
                persistent: without_superseded(old(self)@.persistent, active.recording_id@),
                ..old(self)@
            }),
    {
        let ghost before = self.persistent@;
        let ghost keep = |m: SizedMsg| !is_superseded(m.msg, active.recording_id@);
        let survives = |msg: &LogOrTableMsgProto| -> (b: bool)
            ensures
                b != is_superseded(*msg, active.recording_id@),
        {
            !belongs_to_other_blueprint(msg, active)
        };
        self.persistent.retain(survives);
        proof {
            let kept = choose|kept: Seq<bool>|
                {
                    &&& kept.len() == before.len()
                    &&& forall|i: int|
                        0 <= i < kept.len() ==> #[trigger] kept[i] == keep(before[i])
                    &&& self.persistent@ == #[trigger] select(before, kept)
                };
            select_is_filter(before, kept, keep);
            total_bytes_of_filter(before, keep);
        }
    }

    /// Takes in a static chunk: those with the same key go, and the chunk becomes the latest. A
    /// chunk without a key replaces nothing.
    pub fn replace_static(&mut self, msg: SizedMsg)
        requires
            old(self).wf(),
            old(self)@.bytes() + msg.size_bytes <= u64::MAX,
        ensures
            final(self).wf(),
            final(self).drop_temporal == old(self).drop_temporal,
            final(self)@ == (History { static_: replaced(old(self)@.static_, msg), ..old(self)@ }),
    {
        let ghost before = self.static_@;
        if let Some(key) = &msg.static_key {
            let kept = other_keys(&self.static_.iter(), key);
            proof {
                select_is_filter(before, kept@, |m: SizedMsg| key_of(m) != Some(key@));
                total_bytes_of_select(before, kept@);
            }
            self.static_.retain_selected(&kept);
        }
        proof {
            total_bytes_of_push(self.static_@, msg);
        }
        self.static_.push_back(msg);
    }

    /// Takes a log message in. One without a payload is left out.
    ///
    /// Under `drop_temporal`, an activation gives up all other blueprints, and a static chunk
    /// replaces the earlier ones with its key.
    pub fn add_log_msg(&mut self, msg: SizedMsg)
        requires
            old(self).wf(),
            old(self).can_add(msg),
            msg.msg is LogMsg,
        ensures
            final(self).wf(),
            final(self).drop_temporal == old(self).drop_temporal,
            final(self)@ == old(self)@.added(old(self).drop_temporal, msg),
    {
        let inner: &Msg = match &msg.msg {
            LogOrTableMsgProto::LogMsg(log_msg) => match &log_msg.msg {
                Some(inner) => inner,
                None => {
                    return ;
                },
            },
            _ => {
                return ;
            },
        };
        match inner {
            Msg::SetStoreInfo(_) => {
                self.push_persistent(msg);
            },
            Msg::BlueprintActivationCommand(cmd) => {
                let active: Option<StoreIdProto> = if self.drop_temporal {
                    match &cmd.blueprint_id {
                        Some(id) => Some(id.clone()),
                        None => None,
                    }
                } else {
                    None
                };
                self.push_persistent(msg);
                if let Some(active) = active {
                    self.evict_superseded_blueprints(&active);
                }
            },
            Msg::ArrowMsg(arrow) => {
                if in_blueprint(arrow) {
                    self.push_persistent(msg);
                } else if arrow.is_static == Some(true) {
                    if self.drop_temporal {
                        self.replace_static(msg);
                    } else {
                        proof {
                            total_bytes_of_push(self.static_@, msg);
                        }
                        self.static_.push_back(msg);
                    }
                } else if !self.drop_temporal {
                    self.push_disposable(msg);
                }
            },
        }
    }

    /// Takes a message in. What is disposable is left out under `drop_temporal`.
    pub fn add_msg(&mut self, msg: SizedMsg)
        requires
            old(self).wf(),
            old(self).can_add(msg),
        ensures
            final(self).wf(),
            final(self).drop_temporal == old(self).drop_temporal,
            final(self)@ == old(self)@.added(old(self).drop_temporal, msg),
    {
        match &msg.msg {
            LogOrTableMsgProto::LogMsg(_) => self.add_log_msg(msg),
            _ => {
                if !self.drop_temporal {
                    self.push_disposable(msg);
                }
            },
        }
    }

    fn push_persistent(&mut self, msg: SizedMsg)
        requires
            old(self).wf(),
            old(self)@.bytes() + msg.size_bytes <= u64::MAX,
        ensures
            final(self).wf(),
            final(self).drop_temporal == old(self).drop_temporal,
            final(self)@ == (History { persistent: old(self)@.persistent.push(msg), ..old(self)@ }),
    {
        proof {
            total_bytes_of_push(self.persistent@, msg);
        }
        self.persistent.push_back(msg);
    }

    fn push_disposable(&mut self, msg: SizedMsg)
        requires
            old(self).wf(),
            old(self)@.bytes() + msg.size_bytes <= u64::MAX,
            !old(self).drop_temporal,
        ensures
            final(self).wf(),
            final(self).drop_temporal == old(self).drop_temporal,
            final(self)@ == (History { disposable: old(self)@.disposable.push(msg), ..old(self)@ }),
    {
        proof {
            total_bytes_of_push(self.disposable@, msg);
        }
        self.disposable.push_back(msg);
    }

    /// Frees memory where more than `max_bytes` are held, until less are, or nothing is left that
    /// may go. Goes through the disposable messages first, then through the static ones, each
    /// time from the oldest on.
    pub fn gc(&mut self, max_bytes: u64)
        requires
            old(self).wf(),
        ensures
            final(self).wf(),
            final(self).drop_temporal == old(self).drop_temporal,
            final(self)@ == old(self)@.collected(max_bytes as nat),
    {
        if self.size_bytes() <= max_bytes {
            return ;
        }
        let fixed_bytes: u64 = self.static_.size_bytes() + self.persistent.size_bytes();
        proof {
            drop_oldest_frees_memory(
                self@.disposable,
                total_bytes(self@.static_) + total_bytes(self@.persistent),
                max_bytes as nat,
            );
        }
        self.disposable.drop_oldest(fixed_bytes, max_bytes);
        if max_bytes < self.size_bytes() {
            let fixed_bytes: u64 = self.disposable.size_bytes() + self.persistent.size_bytes();
            proof {
                drop_oldest_frees_memory(
                    self@.static_,
                    total_bytes(self@.disposable) + total_bytes(self@.persistent),
                    max_bytes as nat,
                );
            }
            self.static_.drop_oldest(fixed_bytes, max_bytes);
        }
    }
}

/// Whether a chunk belongs to a blueprint.
pub fn in_blueprint(arrow: &ArrowMsgProto) -> (b: bool)
    ensures
        b == is_blueprint(arrow.store_id),
{
    match &arrow.store_id {
        Some(id) => match id.kind() {
            StoreKindProto::Blueprint => true,
            _ => false,
        },
        None => false,
    }
}

/// Whether `msg` belongs to a blueprint other than `active`.
fn belongs_to_other_blueprint(msg: &LogOrTableMsgProto, active: &StoreIdProto) -> (b: bool)
    ensures
        b == is_superseded(*msg, active.recording_id@),
{
    match MessageBuffer::message_store_id(msg) {
        Some(id) => match id.kind() {
            StoreKindProto::Blueprint => id.recording_id != active.recording_id,
            _ => false,
        },
        None => false,
    }
}

/// The messages of `queue`, from the other end where `newest_first`.
pub open spec fn in_order(queue: Seq<SizedMsg>, newest_first: bool) -> Seq<SizedMsg> {
    if newest_first {
        queue.reverse()
    } else {
        queue
    }
}

fn append_refs<'a>(
    msgs: &mut Vec<&'a LogOrTableMsgProto>,
    queue: &'a MsgQueue,
    newest_first: bool,
)
    ensures
        final(msgs)@.len() == old(msgs)@.len() + queue@.len(),
        forall|i: int| 0 <= i < old(msgs)@.len() ==> #[trigger] final(msgs)@[i] == old(msgs)@[i],
        forall|i: int|
            old(msgs)@.len() <= i < final(msgs)@.len() ==> *(#[trigger] final(msgs)@[i])
                == in_order(queue@, newest_first)[i - old(msgs)@.len()].msg,
{
    let refs = queue.iter();
    let n: usize = refs.len();
    let ghost start = msgs@.len();
    for i in 0..n
        invariant
            n == queue@.len(),
            n == refs@.len(),
            start == old(msgs)@.len(),
            msgs@.len() == start + i,
            forall|j: int| 0 <= j < n ==> *(#[trigger] refs@[j]) == queue@[j],
            forall|j: int| 0 <= j < start ==> #[trigger] msgs@[j] == old(msgs)@[j],
            forall|j: int|
                start <= j < start + i ==> *(#[trigger] msgs@[j]) == in_order(queue@, newest_first)[j
                    - start].msg,
    {
        let j: usize = if newest_first {
            n - 1 - i
        } else {
            i
        };
        msgs.push(&refs[j].msg);
    }
}

} // verus!
