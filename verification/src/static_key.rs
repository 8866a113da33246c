//! Which static chunks stand for the same thing.

use futures::FutureExt;
use re_log_encoding::ToApplication;
use vstd::prelude::*;

use crate::messages::{ArrowMsgProto, LogOrTableMsgProto, Msg, SizedMsg};

verus! {

/// What a static chunk is about: an entity of a recording. The latest chunk with a key stands for
/// all earlier ones.
#[derive(Clone, Debug, PartialEq, Eq)]
pub struct StaticKey {
    pub recording_id: String,
    pub entity_path: String,
}

impl View for StaticKey {
    type V = (Seq<char>, Seq<char>);

    open spec fn view(&self) -> (Seq<char>, Seq<char>) {
        (self.recording_id@, self.entity_path@)
    }
}

impl StaticKey {
    /// Whether the two keys name the same entity of the same recording.
    pub fn same(&self, other: &StaticKey) -> (b: bool)
        ensures
            b == (self@ == other@),
    {
        self.recording_id == other.recording_id && self.entity_path == other.entity_path
    }
}

/// A string that may be absent, by its characters.
pub open spec fn text(s: Option<String>) -> Option<Seq<char>> {
    match s {
        Some(s) => Some(s@),
        None => None,
    }
}

/// A key that may be absent, by its characters.
pub open spec fn key_view(key: Option<StaticKey>) -> Option<(Seq<char>, Seq<char>)> {
    match key {
        Some(key) => Some(key@),
        None => None,
    }
}

/// Whether looking for the entity path of an encoded chunk may give `path`, in some run of some
/// program. One chunk may give several: where its metadata holds an entry twice, in an old and in a
/// new spelling, the decoder keeps whichever it walks last, and some checks are made in debug builds
/// only.
pub uninterp spec fn entity_path_may_be(
    compression: i32,
    uncompressed_size: u64,
    encoding: i32,
    payload: Seq<u8>,
    path: Option<Seq<char>>,
) -> bool;

/// Calls `re_log_encoding::ToApplication::to_application` on the transport message with these
/// fields, and looks up `re_sorbet::metadata::SORBET_ENTITY_PATH` in the metadata of the schema of
/// the batch that comes back. `None` where the chunk cannot be decoded or has no such entry.
///
/// The decoder panics on some malformed payloads. So the call is the only task of a
/// `tokio::task::LocalSet`, which `futures::FutureExt::now_or_never` polls once: that runs it to its
/// end, and gives an error where it panics. Such a payload counts as one that cannot be decoded.
/// That takes a program that unwinds. Memory that is not there ends the program, as it does wherever
/// memory is asked for.
///
/// Claimed: no more than what was handed to the decoder. Two calls on one chunk may differ, see
/// [`entity_path_may_be`], and what the path is for given bytes is not said.
#[verifier::external_body]
fn decode_entity_path(
    compression: i32,
    uncompressed_size: u64,
    encoding: i32,
    payload: &Vec<u8>,
) -> (path: Option<String>)
    ensures
        entity_path_may_be(compression, uncompressed_size, encoding, payload@, text(path)),
{
    let payload = payload.clone().into();
    let arrow = re_protos::log_msg::v1alpha1::ArrowMsg {
        compression,
        uncompressed_size,
        encoding,
        payload,
        ..Default::default()
    };
    let tasks = tokio::task::LocalSet::new();
    let task = tasks.spawn_local(futures::future::lazy(move |_| arrow.to_application(()).ok()));
    tasks.now_or_never();
    let app = tokio::task::unconstrained(task).now_or_never()?.ok()??;
    let metadata = app.batch.schema_ref().metadata();
    metadata.get(re_sorbet::metadata::SORBET_ENTITY_PATH).cloned()
}

/// The key of a chunk whose entity path is `entity_path`. There is none for a chunk that is not
/// static, that belongs to no store, or whose path is unknown.
pub open spec fn key_with_path(arrow: ArrowMsgProto, entity_path: Option<Seq<char>>) -> Option<
    (Seq<char>, Seq<char>),
> {
    if arrow.is_static != Some(true) {
        None
    } else {
        match (arrow.store_id, entity_path) {
            (Some(store_id), Some(path)) => Some((store_id.recording_id@, path)),
            _ => None,
        }
    }
}

/// Whether looking for the key of a chunk may give `key`. Chunks that are not static or belong to no
/// store have none; for the others it is made of an entity path that may be found.
pub open spec fn arrow_key_may_be(arrow: ArrowMsgProto, key: Option<(Seq<char>, Seq<char>)>) -> bool {
    if arrow.is_static != Some(true) || arrow.store_id is None {
        key is None
    } else {
        exists|path: Option<Seq<char>>|
            #[trigger] entity_path_may_be(
                arrow.compression,
                arrow.uncompressed_size,
                arrow.encoding,
                arrow.payload@,
                path,
            ) && key == key_with_path(arrow, path)
    }
}

/// Whether looking for the key of a message may give `key`. Only chunks have one.
pub open spec fn key_may_be(msg: LogOrTableMsgProto, key: Option<(Seq<char>, Seq<char>)>) -> bool {
    match msg {
        LogOrTableMsgProto::LogMsg(log_msg) => match log_msg.msg {
            Some(Msg::ArrowMsg(arrow)) => arrow_key_may_be(arrow, key),
            _ => key is None,
        },
        _ => key is None,
    }
}

/// The key that was found for a message when it arrived.
pub open spec fn key_of(m: SizedMsg) -> Option<(Seq<char>, Seq<char>)> {
    key_view(m.static_key)
}

/// The key of a chunk whose entity path has been found to be `entity_path`.
pub fn static_key_with_path(arrow: &ArrowMsgProto, entity_path: Option<String>) -> (key: Option<
    StaticKey,
>)
    ensures
        key_view(key) == key_with_path(*arrow, text(entity_path)),
{
    if arrow.is_static != Some(true) {
        return None;
    }
    match (&arrow.store_id, entity_path) {
        (Some(store_id), Some(path)) => Some(
            StaticKey { recording_id: store_id.recording_id.clone(), entity_path: path },
        ),
        _ => None,
    }
}

/// The recording and the entity that a static chunk belongs to. Only static chunks of a store are
/// decoded; one that cannot be has no key.
pub fn static_key_from_arrow(arrow: &ArrowMsgProto) -> (key: Option<StaticKey>)
    ensures
        arrow_key_may_be(*arrow, key_view(key)),
        key matches Some(k) ==> arrow.is_static == Some(true) && (arrow.store_id matches Some(id)
            && k@.0 == id.recording_id@),
{
    if arrow.is_static != Some(true) || arrow.store_id.is_none() {
        return None;
    }
    let path = decode_entity_path(
        arrow.compression,
        arrow.uncompressed_size,
        arrow.encoding,
        &arrow.payload,
    );
    static_key_with_path(arrow, path)
}

/// The key of any message. Only static chunks have one.
pub fn static_key_from_msg(msg: &LogOrTableMsgProto) -> (key: Option<StaticKey>)
    ensures
        key_may_be(*msg, key_view(key)),
{
    match msg {
        LogOrTableMsgProto::LogMsg(log_msg) => match &log_msg.msg {
            Some(Msg::ArrowMsg(arrow)) => static_key_from_arrow(arrow),
            _ => None,
        },
        _ => None,
    }
}

/// For each of `msgs`, whether its key differs from `new_key`.
pub fn other_keys(msgs: &Vec<&SizedMsg>, new_key: &StaticKey) -> (kept: Vec<bool>)
    ensures
        kept@.len() == msgs@.len(),
        forall|i: int|
            0 <= i < msgs@.len() ==> #[trigger] kept@[i] == (key_of(*msgs@[i]) != Some(new_key@)),
{
    let mut kept: Vec<bool> = Vec::new();
    for i in 0..msgs.len()
        invariant
            kept@.len() == i,
            forall|j: int|
                0 <= j < i ==> #[trigger] kept@[j] == (key_of(*msgs@[j]) != Some(new_key@)),
    {
        let differs: bool = match &msgs[i].static_key {
            Some(key) => !key.same(new_key),
            None => true,
        };
        kept.push(differs);
    }
    kept
}

/// Keys tell entities apart: two static chunks have the same key exactly if they belong to stores with
/// the same recording id and are about the same entity path, character for character, whatever else is in
/// them. A key is the whole of both.
pub proof fn keys_tell_entities_apart(
    a: ArrowMsgProto,
    b: ArrowMsgProto,
    p: Seq<char>,
    q: Seq<char>,
)
    requires
        a.is_static == Some(true) && a.store_id is Some,
        b.is_static == Some(true) && b.store_id is Some,
    ensures
        key_with_path(a, Some(p)) == key_with_path(b, Some(q)) <==> (a.store_id matches Some(x)
            && b.store_id matches Some(y) && x.recording_id@ == y.recording_id@ && p == q),
        a.store_id matches Some(x) ==> key_with_path(a, Some(p)) == Some((x.recording_id@, p)),
{
}

/// A chunk has a key exactly if it is static, belongs to a store, and its path is known.
pub proof fn only_static_chunks_of_a_store_have_a_key(
    arrow: ArrowMsgProto,
    entity_path: Option<Seq<char>>,
)
    ensures
        key_with_path(arrow, entity_path) is Some <==> arrow.is_static == Some(true)
            && arrow.store_id is Some && entity_path is Some,
{
}

/// What is looked for is found: a static chunk of a store has no key only if its path may be missing, and
/// has a key only with its own recording id and a path that its own payload may give. Any other message
/// has none.
pub proof fn keys_are_those_of_the_payload(msg: LogOrTableMsgProto, key: Option<(Seq<char>, Seq<char>)>)
    ensures
        key_may_be(msg, key) <==> match msg {
            LogOrTableMsgProto::LogMsg(log_msg) => match log_msg.msg {
                Some(Msg::ArrowMsg(arrow)) => if arrow.is_static == Some(true) {
                    match (arrow.store_id, key) {
                        (Some(id), Some((recording_id, path))) => recording_id == id.recording_id@
                            && entity_path_may_be(
                            arrow.compression,
                            arrow.uncompressed_size,
                            arrow.encoding,
                            arrow.payload@,
                            Some(path),
                        ),
                        (Some(_), None) => entity_path_may_be(
                            arrow.compression,
                            arrow.uncompressed_size,
                            arrow.encoding,
                            arrow.payload@,
                            None,
                        ),
                        (None, key) => key is None,
                    }
                } else {
                    key is None
                },
                _ => key is None,
            },
            _ => key is None,
        },
        msg matches LogOrTableMsgProto::LogMsg(log_msg) ==> (log_msg.msg matches Some(
            Msg::ArrowMsg(arrow),
        ) ==> (arrow_key_may_be(arrow, key) <==> key_may_be(msg, key))),
{
    if let LogOrTableMsgProto::LogMsg(log_msg) = msg {
        if let Some(Msg::ArrowMsg(arrow)) = log_msg.msg {
            if arrow.is_static == Some(true) && arrow.store_id is Some {
                let path = match key {
                    Some((_, path)) => Some(path),
                    None => None,
                };
                assert(arrow_key_may_be(arrow, key) <==> entity_path_may_be(
                    arrow.compression,
                    arrow.uncompressed_size,
                    arrow.encoding,
                    arrow.payload@,
                    path,
                ) && key == key_with_path(arrow, path)) by {
                    if arrow_key_may_be(arrow, key) {
                        let found = choose|found: Option<Seq<char>>|
                            #[trigger] entity_path_may_be(
                                arrow.compression,
                                arrow.uncompressed_size,
                                arrow.encoding,
                                arrow.payload@,
                                found,
                            ) && key == key_with_path(arrow, found);
                        assert(found == path);
                    }
                }
            }
        }
    }
}

/// Two keys are the same exactly if both their texts are, and what counts of a message is the key that
/// was found for it.
pub proof fn keys_are_compared_whole(a: StaticKey, b: StaticKey, m: SizedMsg)
    ensures
        a@ == b@ <==> a.recording_id@ == b.recording_id@ && a.entity_path@ == b.entity_path@,
        key_view(Some(a)) == Some((a.recording_id@, a.entity_path@)),
        key_view(None) is None,
        m.static_key == Some(a) ==> key_of(m) == Some((a.recording_id@, a.entity_path@)),
        m.static_key is None ==> key_of(m) is None,
{
}

/// Texts are taken whole.
pub proof fn texts_are_taken_whole(s: String)
    ensures
        text(Some(s)) == Some(s@),
        text(None) is None,
{
}

} // verus!
