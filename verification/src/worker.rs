//! What the worker does with each completed remote call.
//!
//! Each spawned task reports one `JobOutcome`; `handle_completion` routes it
//! to the matching cache slot. The slot edits themselves are the pure
//! functions below, so exactly what a completion does to a slot — and that
//! a reported failure changes nothing — is stated on each of them.

use vstd::prelude::*;
use crate::model::{Channel, ChannelKind, GuildPreview, Member, Message};
use crate::guild::Server;
use crate::jobs::Job;
use crate::queue::Queue;
use crate::shared_cache::{slot_mut, ArcMutex, SharedCache};

verus! {

/// What one spawned task reports back, one variant per job kind. Every
/// remote call reports its failure too — `None`, or `success: false` — so
/// the failure policy, no cache write on a failed call, is carried out and
/// contracted here, not in the task. Only a cancelled file pick reports
/// nothing: there is no call whose failure could corrupt a slot.
pub enum JobOutcome {
    GotServers(Option<Vec<Server>>),
    GotChannels(Option<Vec<Channel>>),
    GotMessages(Option<Vec<Message>>),
    GotMembers(Option<Vec<Member>>),
    GotPreview { server_id: u64, preview: Option<GuildPreview> },
    Sent(Option<Message>),
    Edited { message_id: u64, new_content: String, success: bool },
    Deleted { message_id: u64, success: bool },
    FileSent(Option<Message>),
    ChannelCreated(Option<Channel>),
    ChannelDeleted(Option<Channel>),
    FilePicked { filename: String, bytes: Vec<u8> },
}

/// Appends a job to the queue's tail under its lock; never blocks for long,
/// never fails, returns nothing to the originator.
pub fn append_job(job_queue: &ArcMutex<Queue<Job>>, job: Job) {
    let mut queue_guard = job_queue.guard();
    slot_mut(&mut queue_guard).push(job);
}

/// Pops the queue's head under its lock, or reports an empty queue; the
/// emptiness check and the pop are one `pop_front` in one critical
/// section, so what is done to whatever queue content the lock found is
/// pinned by `pop_front`'s contract.
pub fn take_job(job_queue: &ArcMutex<Queue<Job>>) -> Option<Job> {
    let mut queue_guard = job_queue.guard();
    slot_mut(&mut queue_guard).pop_front()
}

/// Drains the outbound file payload pair: with both parts present, empties
/// both and hands them over; with either part missing, takes nothing and
/// changes nothing.
pub fn drain_pair(bytes: &mut Vec<u8>, name: &mut String) -> (r: Option<(String, Vec<u8>)>)
    ensures
        old(bytes)@.len() == 0 || old(name)@.len() == 0 ==> r is None && final(bytes)@ == old(
            bytes,
        )@ && final(name)@ == old(name)@,
        old(bytes)@.len() > 0 && old(name)@.len() > 0 ==> r == Some((*old(name), *old(bytes)))
            && final(bytes)@ == Seq::<u8>::empty() && final(name)@ == Seq::<char>::empty(),
{
    if bytes.len() == 0 || name.as_str().is_empty() {
        return None;
    }
    let mut drained_bytes: Vec<u8> = Vec::new();
    core::mem::swap(&mut drained_bytes, bytes);
    let mut drained_name: String = String::new();
    core::mem::swap(&mut drained_name, name);
    Some((drained_name, drained_bytes))
}

/// Drains the outbound file payload that the picker left in the cache: if
/// both the bytes slot and the name slot are non-empty, empties both and
/// hands the pair over — the caller turns it into a file-send job — else
/// takes nothing. The two locks are held together for the whole drain,
/// which `drain_pair` carries out under contract.
pub fn drain_file_payload(cache: &SharedCache) -> (r: Option<(String, Vec<u8>)>)
    ensures
        r matches Some(payload) ==> payload.0@.len() > 0 && payload.1@.len() > 0,
{
    let mut bytes_guard = cache.file_bytes.guard();
    let mut name_guard = cache.file_name.guard();
    drain_pair(slot_mut(&mut bytes_guard), slot_mut(&mut name_guard))
}

/// Applies a fetched listing to its slot: a successful fetch overwrites
/// the slot wholesale, in delivered order; a failed one leaves it
/// untouched.
pub fn complete_listing<T>(slot: &mut Vec<T>, fetched: Option<Vec<T>>)
    ensures
        fetched is None ==> final(slot)@ == old(slot)@,
        fetched matches Some(listing) ==> final(slot)@ == listing@,
{
    match fetched {
        Some(listing) => {
            *slot = listing;
        },
        None => {},
    }
}

/// Applies a fetched channel listing to the channels slot: a successful
/// fetch overwrites it wholesale with the (text, voice) partition of the
/// listing; a failed one leaves it untouched.
pub fn complete_channel_listing(
    slot: &mut (Vec<Channel>, Vec<Channel>),
    fetched: Option<Vec<Channel>>,
)
    ensures
        fetched is None ==> *final(slot) == *old(slot),
        fetched matches Some(listing) ==> (final(slot).0@ == text_channels_of(listing@)
            && final(slot).1@ == voice_channels_of(listing@)),
{
    match fetched {
        Some(listing) => {
            *slot = split_into_text_and_voice(listing);
        },
        None => {},
    }
}

/// Stores a picked file in the outbound payload pair, overwriting both
/// parts.
pub fn store_file_payload(
    bytes_slot: &mut Vec<u8>,
    name_slot: &mut String,
    filename: String,
    bytes: Vec<u8>,
)
    ensures
        final(bytes_slot)@ == bytes@,
        final(name_slot)@ == filename@,
{
    *bytes_slot = bytes;
    *name_slot = filename;
}

/// Routes one completed remote call to the matching cache slot. The match
/// is exhaustive over `JobOutcome`, so a newly added job kind forces a
/// compile-time-visible update here. Channel creation and deletion are
/// fire-and-forget: no slot is authoritative for them, a later channel
/// listing surfaces their effect.
///
/// Completions are applied in arrival order, an accepted limitation: two
/// overlapping fetches of the same resource can complete out of order and
/// leave the slot holding the older listing. Where stale results must be
/// discarded exactly, route the resource through `fetch::Fetch` instead.
pub fn handle_completion(cache: &SharedCache, outcome: JobOutcome) {
    match outcome {
        JobOutcome::GotServers(fetched) => {
            let mut guard = cache.servers.guard();
            complete_listing(slot_mut(&mut guard), fetched);
        },
        JobOutcome::GotChannels(fetched) => {
            let mut guard = cache.channels.guard();
            complete_channel_listing(slot_mut(&mut guard), fetched);
        },
        JobOutcome::GotMessages(fetched) => {
            let mut guard = cache.messages.guard();
            complete_listing(slot_mut(&mut guard), fetched);
        },
        JobOutcome::GotMembers(fetched) => {
            let mut guard = cache.members.guard();
            complete_listing(slot_mut(&mut guard), fetched);
        },
        JobOutcome::GotPreview { server_id, preview } => {
            let mut guard = cache.servers.guard();
            complete_preview(slot_mut(&mut guard), server_id, preview);
        },
        JobOutcome::Sent(sent) => {
            let mut guard = cache.messages.guard();
            complete_send(slot_mut(&mut guard), sent);
        },
        JobOutcome::Edited { message_id, new_content, success } => {
            let mut guard = cache.messages.guard();
            complete_edit(slot_mut(&mut guard), message_id, new_content, success);
        },
        JobOutcome::Deleted { message_id, success } => {
            let mut guard = cache.messages.guard();
            complete_delete(slot_mut(&mut guard), message_id, success);
        },
        JobOutcome::FileSent(sent) => {
            let mut guard = cache.messages.guard();
            complete_send(slot_mut(&mut guard), sent);
        },
        JobOutcome::ChannelCreated(_created) => {},
        JobOutcome::ChannelDeleted(_deleted) => {},
        JobOutcome::FilePicked { filename, bytes } => {
            let mut bytes_guard = cache.file_bytes.guard();
            let mut name_guard = cache.file_name.guard();
            store_file_payload(
                slot_mut(&mut bytes_guard),
                slot_mut(&mut name_guard),
                filename,
                bytes,
            );
        },
    }
}

/// Index of the first message with this identifier, or -1 if none.
pub open spec fn first_with_id(s: Seq<Message>, id: u64) -> int
    decreases s.len(),
{
    if s.len() == 0 {
        -1
    } else if s.first().id == id {
        0
    } else if first_with_id(s.drop_first(), id) == -1 {
        -1
    } else {
        first_with_id(s.drop_first(), id) + 1
    }
}

proof fn lemma_first_with_id_at(s: Seq<Message>, id: u64, i: int)
    requires
        0 <= i < s.len(),
        s[i].id == id,
        forall|j: int| 0 <= j < i ==> s[j].id != id,
    ensures
        first_with_id(s, id) == i,
    decreases s.len(),
{
    if i > 0 {
        lemma_first_with_id_at(s.drop_first(), id, i - 1);
    }
}

proof fn lemma_first_with_id_absent(s: Seq<Message>, id: u64)
    requires
        forall|j: int| 0 <= j < s.len() ==> s[j].id != id,
    ensures
        first_with_id(s, id) == -1,
    decreases s.len(),
{
    if s.len() > 0 {
        lemma_first_with_id_absent(s.drop_first(), id);
    }
}

/// The message list after a successful edit: the first entry whose
/// identifier matches gets the new content, every other field and entry is
/// untouched; with no match the list is unchanged.
pub open spec fn edited_messages(s: Seq<Message>, message_id: u64, new_content: String) -> Seq<
    Message,
> {
    let i = first_with_id(s, message_id);
    if i == -1 {
        s
    } else {
        s.update(i, Message { content: new_content, ..s[i] })
    }
}

/// The message list after a successful delete: the first entry whose
/// identifier matches is removed; with no match the list is unchanged.
pub open spec fn deleted_messages(s: Seq<Message>, message_id: u64) -> Seq<Message> {
    let i = first_with_id(s, message_id);
    if i == -1 {
        s
    } else {
        s.remove(i)
    }
}

/// Applies a send result to the message slot: on success the new message is
/// inserted at the head (most recent first); on failure the slot is left
/// exactly as it was.
pub fn complete_send(messages: &mut Vec<Message>, sent: Option<Message>)
    ensures
        sent is None ==> final(messages)@ == old(messages)@,
        sent matches Some(m) ==> final(messages)@ == old(messages)@.insert(0, m),
{
    match sent {
        Some(m) => {
            messages.insert(0, m);
        },
        None => {},
    }
}

/// Applies an edit result to the message slot: on success the first match
/// gets the new content; on failure, or with no match, the slot is left
/// exactly as it was.
pub fn complete_edit(messages: &mut Vec<Message>, message_id: u64, new_content: String, success: bool)
    ensures
        !success ==> final(messages)@ == old(messages)@,
        success ==> final(messages)@ == edited_messages(old(messages)@, message_id, new_content),
{
    if !success {
        return ;
    }
    let mut i: usize = 0;
    while i < messages.len() && messages[i].id != message_id
        invariant
            i <= messages@.len(),
            forall|j: int| 0 <= j < i ==> messages@[j].id != message_id,
            *messages == *old(messages),
        decreases messages@.len() - i,
    {
        i += 1;
    }
    if i < messages.len() {
        proof {
            lemma_first_with_id_at(messages@, message_id, i as int);
        }
        let mut m = messages.remove(i);
        m.content = new_content;
        messages.insert(i, m);
        proof {
            assert(final(messages)@ =~= edited_messages(old(messages)@, message_id, new_content));
        }
    } else {
        proof {
            lemma_first_with_id_absent(messages@, message_id);
        }
    }
}

/// Applies a delete result to the message slot: on success the first match
/// is removed; on failure, or with no match, the slot is left exactly as it
/// was.
pub fn complete_delete(messages: &mut Vec<Message>, message_id: u64, success: bool)
    ensures
        !success ==> final(messages)@ == old(messages)@,
        success ==> final(messages)@ == deleted_messages(old(messages)@, message_id),
{
    if !success {
        return ;
    }
    let mut i: usize = 0;
    while i < messages.len() && messages[i].id != message_id
        invariant
            i <= messages@.len(),
            forall|j: int| 0 <= j < i ==> messages@[j].id != message_id,
            *messages == *old(messages),
        decreases messages@.len() - i,
    {
        i += 1;
    }
    if i < messages.len() {
        proof {
            lemma_first_with_id_at(messages@, message_id, i as int);
        }
        messages.remove(i);
    } else {
        proof {
            lemma_first_with_id_absent(messages@, message_id);
        }
    }
}

/// Index of the first server with this identifier, or -1 if none.
pub open spec fn first_server_with_id(s: Seq<Server>, id: u64) -> int
    decreases s.len(),
{
    if s.len() == 0 {
        -1
    } else if s.first().id == id {
        0
    } else if first_server_with_id(s.drop_first(), id) == -1 {
        -1
    } else {
        first_server_with_id(s.drop_first(), id) + 1
    }
}

proof fn lemma_first_server_with_id_at(s: Seq<Server>, id: u64, i: int)
    requires
        0 <= i < s.len(),
        s[i].id == id,
        forall|j: int| 0 <= j < i ==> s[j].id != id,
    ensures
        first_server_with_id(s, id) == i,
    decreases s.len(),
{
    if i > 0 {
        lemma_first_server_with_id_at(s.drop_first(), id, i - 1);
    }
}

proof fn lemma_first_server_with_id_absent(s: Seq<Server>, id: u64)
    requires
        forall|j: int| 0 <= j < s.len() ==> s[j].id != id,
    ensures
        first_server_with_id(s, id) == -1,
    decreases s.len(),
{
    if s.len() > 0 {
        lemma_first_server_with_id_absent(s.drop_first(), id);
    }
}

/// The server list after a preview arrives: the first server whose
/// identifier matches holds the preview, the rest is untouched.
pub open spec fn previewed_servers(s: Seq<Server>, server_id: u64, p: GuildPreview) -> Seq<
    Server,
> {
    let i = first_server_with_id(s, server_id);
    if i == -1 {
        s
    } else {
        s.update(i, Server { preview: Some(p), ..s[i] })
    }
}

/// Applies a preview-fetch result: on success the preview lands on the
/// matching server entry (with no match the list is unchanged); a failed
/// fetch leaves the list untouched.
pub fn complete_preview(servers: &mut Vec<Server>, server_id: u64, fetched: Option<GuildPreview>)
    ensures
        fetched is None ==> final(servers)@ == old(servers)@,
        fetched matches Some(preview) ==> final(servers)@ == previewed_servers(
            old(servers)@,
            server_id,
            preview,
        ),
{
    let preview = match fetched {
        Some(preview) => preview,
        None => {
            return ;
        },
    };
    let mut i: usize = 0;
    while i < servers.len() && servers[i].id != server_id
        invariant
            i <= servers@.len(),
            forall|j: int| 0 <= j < i ==> servers@[j].id != server_id,
            *servers == *old(servers),
        decreases servers@.len() - i,
    {
        i += 1;
    }
    if i < servers.len() {
        proof {
            lemma_first_server_with_id_at(servers@, server_id, i as int);
        }
        let mut s = servers.remove(i);
        s.preview = Some(preview);
        servers.insert(i, s);
        proof {
            assert(final(servers)@ =~= previewed_servers(old(servers)@, server_id, preview));
        }
    } else {
        proof {
            lemma_first_server_with_id_absent(servers@, server_id);
        }
    }
}

/// The text channels of a mixed listing, in their original order.
pub open spec fn text_channels_of(s: Seq<Channel>) -> Seq<Channel>
    decreases s.len(),
{
    if s.len() == 0 {
        Seq::empty()
    } else if s.last().kind == ChannelKind::Text {
        text_channels_of(s.drop_last()).push(s.last())
    } else {
        text_channels_of(s.drop_last())
    }
}

/// The voice channels of a mixed listing, in their original order.
pub open spec fn voice_channels_of(s: Seq<Channel>) -> Seq<Channel>
    decreases s.len(),
{
    if s.len() == 0 {
        Seq::empty()
    } else if s.last().kind == ChannelKind::Voice {
        voice_channels_of(s.drop_last()).push(s.last())
    } else {
        voice_channels_of(s.drop_last())
    }
}

/// Splits a mixed channel listing into its text channels and its voice
/// channels, keeping the listing order within each group; channels of any
/// other kind are dropped.
pub fn split_into_text_and_voice(mixed_channels: Vec<Channel>) -> (r: (Vec<Channel>, Vec<Channel>))
    ensures
        r.0@ == text_channels_of(mixed_channels@),
        r.1@ == voice_channels_of(mixed_channels@),
{
    let mut rest = mixed_channels;
    let ghost orig = rest@;
    let ghost mut i: int = 0;
    let mut text_channels: Vec<Channel> = Vec::new();
    let mut voice_channels: Vec<Channel> = Vec::new();
    while rest.len() > 0
        invariant
            0 <= i <= orig.len(),
            rest@ == orig.skip(i),
            text_channels@ == text_channels_of(orig.take(i)),
            voice_channels@ == voice_channels_of(orig.take(i)),
        decreases rest@.len(),
    {
        let any_channel = rest.remove(0);
        proof {
            assert(any_channel == orig[i]);
            assert(orig.take(i + 1).drop_last() =~= orig.take(i));
            assert(orig.take(i + 1).last() == orig[i]);
        }
        match any_channel.kind {
            ChannelKind::Text => {
                text_channels.push(any_channel);
            },
            ChannelKind::Voice => {
                voice_channels.push(any_channel);
            },
            ChannelKind::Other => {},
        }
        proof {
            i = i + 1;
            assert(rest@ =~= orig.skip(i));
        }
    }
    proof {
        assert(orig.take(i) =~= mixed_channels@);
    }
    (text_channels, voice_channels)
}

} // verus!
