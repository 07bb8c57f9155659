//! Turning the pinned items of each chat into messages, and merging the chats.
use vstd::prelude::*;
use crate::date::Date;
use crate::message::{Message, MessageView, views};
use crate::order::{order_by_date, sort_by_date};

verus! {

/// One pinned item as the messaging service reports it.
pub struct PinnedItem {
    /// Whether the item carries a media attachment.
    pub has_media: bool,
    /// The public handle of its sender, if the sender is known and has one.
    pub sender_handle: Option<String>,
    pub text: String,
    /// The calendar day of its timestamp.
    pub date: Date,
}

/// What looking up one configured chat handle found.
pub enum ChatLookup {
    /// No chat has that handle.
    NotFound,
    /// The chat, with all its pinned items in the service's order.
    Found(Vec<PinnedItem>),
}

/// Why a collection run stops; `chat` is the index of the chat handle.
#[derive(Debug, Clone, Copy, PartialEq, Eq, Structural)]
pub enum CollectError {
    ChatNotFound { chat: usize },
    MissingSenderHandle { chat: usize },
}

/// Whether an item is exported: only items without media are.
pub open spec fn exported(item: PinnedItem) -> bool {
    !item.has_media
}

/// An exported item whose sender has no public handle.
pub open spec fn lacks_handle(item: PinnedItem) -> bool {
    exported(item) && item.sender_handle is None
}

/// Every exported item has a sender with a public handle.
pub open spec fn handles_known(items: Seq<PinnedItem>) -> bool {
    forall|i: int| 0 <= i < items.len() ==> !lacks_handle(#[trigger] items[i])
}

/// The message made of an exported item.
pub open spec fn message_of(item: PinnedItem) -> MessageView {
    MessageView {
        sender: item.sender_handle->Some_0@,
        text: item.text@,
        date: item.date.text(),
    }
}

/// The messages of one chat: one for each exported item, in the items' order.
pub open spec fn chat_messages(items: Seq<PinnedItem>) -> Seq<MessageView> {
    items.filter(|item: PinnedItem| exported(item)).map_values(|item: PinnedItem| message_of(item))
}

/// The messages of the chats in order, or the first failure met on the way.
pub open spec fn collected(chats: Seq<ChatLookup>) -> Result<Seq<MessageView>, CollectError>
    decreases chats.len(),
{
    if chats.len() == 0 {
        Ok(Seq::empty())
    } else {
        match collected(chats.drop_last()) {
            Err(e) => Err(e),
            Ok(prev) => match chats.last() {
                ChatLookup::NotFound => Err(CollectError::ChatNotFound { chat: (chats.len() - 1) as usize }),
                ChatLookup::Found(items) => if handles_known(items@) {
                    Ok(prev + chat_messages(items@))
                } else {
                    Err(CollectError::MissingSenderHandle { chat: (chats.len() - 1) as usize })
                },
            },
        }
    }
}

/// The messages of one chat, or `None` where an exported item's sender has no
/// public handle.
pub fn chat_to_messages(items: &Vec<PinnedItem>) -> (r: Option<Vec<Message>>)
    ensures
        r is Some <==> handles_known(items@),
        r matches Some(v) ==> views(v@) == chat_messages(items@),
{
    let n = items.len();
    let mut out: Vec<Message> = Vec::new();
    let mut i: usize = 0;
    while i < n
        invariant
            n == items@.len(),
            i <= n,
            handles_known(items@.subrange(0, i as int)),
            views(out@) == chat_messages(items@.subrange(0, i as int)),
        decreases n - i,
    {
        let item = &items[i];
        let ghost pre = items@.subrange(0, i as int);
        let ghost cur = items@.subrange(0, i + 1);
        proof {
            reveal(Seq::filter);
            assert(cur.drop_last() =~= pre);
        }
        if !item.has_media {
            match &item.sender_handle {
                None => {
                    assert(lacks_handle(items@[i as int]));
                    return None;
                },
                Some(handle) => {
                    let date = item.date.to_iso();
                    out.push(Message { sender: handle.clone(), text: item.text.clone(), date });
                    proof {
                        assert(views(out@) =~= chat_messages(pre).push(message_of(*item)));
                    }
                },
            }
        }
        proof {
            assert(views(out@) =~= chat_messages(cur));
            assert forall|k: int| 0 <= k < cur.len() implies !lacks_handle(#[trigger] cur[k]) by {
                if k < i {
                    assert(cur[k] == pre[k]);
                }
            }
        }
        i = i + 1;
    }
    assert(items@.subrange(0, n as int) =~= items@);
    Some(out)
}

/// Collects the messages of all chats, chat by chat, and orders them by date.
/// The run stops at the first chat that was not found or that has an exported
/// item whose sender has no public handle; then no message is returned.
pub fn collect_all(chats: &Vec<ChatLookup>) -> (r: Result<Vec<Message>, CollectError>)
    ensures
        match (r, collected(chats@)) {
            (Ok(v), Ok(s)) => views(v@) == sort_by_date(s),
            (Err(e), Err(f)) => e == f,
            _ => false,
        },
{
    let n = chats.len();
    let mut all: Vec<Message> = Vec::new();
    let mut i: usize = 0;
    assert(views(all@) =~= Seq::<MessageView>::empty());
    while i < n
        invariant
            n == chats@.len(),
            i <= n,
            collected(chats@.subrange(0, i as int)) == Ok::<Seq<MessageView>, CollectError>(views(all@)),
        decreases n - i,
    {
        let ghost pre = chats@.subrange(0, i as int);
        let ghost cur = chats@.subrange(0, i + 1);
        assert(cur.drop_last() =~= pre);
        match &chats[i] {
            ChatLookup::NotFound => {
                proof {
                    lemma_failure_persists(chats@, i as int + 1);
                }
                return Err(CollectError::ChatNotFound { chat: i });
            },
            ChatLookup::Found(items) => {
                match chat_to_messages(items) {
                    None => {
                        proof {
                            lemma_failure_persists(chats@, i as int + 1);
                        }
                        return Err(CollectError::MissingSenderHandle { chat: i });
                    },
                    Some(msgs) => {
                        let ghost old_all = views(all@);
                        let mut msgs = msgs;
                        all.append(&mut msgs);
                        assert(views(all@) =~= old_all + chat_messages(items@));
                    },
                }
            },
        }
        i = i + 1;
    }
    assert(chats@.subrange(0, n as int) =~= chats@);
    Ok(order_by_date(&all))
}

/// Once the chats up to `k` end in a failure, so do all the chats.
proof fn lemma_failure_persists(chats: Seq<ChatLookup>, k: int)
    requires
        0 <= k <= chats.len(),
        collected(chats.subrange(0, k)) is Err,
    ensures
        collected(chats) == collected(chats.subrange(0, k)),
    decreases chats.len() - k,
{
    if k == chats.len() {
        assert(chats.subrange(0, k) =~= chats);
    } else {
        assert(chats.subrange(0, k + 1).drop_last() =~= chats.subrange(0, k));
        lemma_failure_persists(chats, k + 1);
    }
}

/// With no chat handles the run collects nothing and succeeds with an empty
/// batch.
pub proof fn lemma_no_chats_empty_batch(chats: Seq<ChatLookup>)
    requires
        chats.len() == 0,
    ensures
        collected(chats) == Ok::<Seq<MessageView>, CollectError>(Seq::empty()),
        sort_by_date(Seq::<MessageView>::empty()) == Seq::<MessageView>::empty(),
{
}

/// An item with media yields no message, whatever its other fields hold: the
/// messages of a chat are the same with it and without it.
pub proof fn lemma_media_excluded(before: Seq<PinnedItem>, item: PinnedItem, after: Seq<PinnedItem>)
    requires
        item.has_media,
    ensures
        chat_messages(before + seq![item] + after) == chat_messages(before + after),
{
    let p = |item: PinnedItem| exported(item);
    Seq::filter_distributes_over_add(before + seq![item], after, p);
    Seq::filter_distributes_over_add(before, seq![item], p);
    Seq::filter_distributes_over_add(before, after, p);
    reveal(Seq::filter);
    assert(seq![item].drop_last() =~= Seq::<PinnedItem>::empty());
    assert(Seq::<PinnedItem>::empty().filter(p) =~= Seq::<PinnedItem>::empty());
    assert(seq![item].last() == item);
    assert(!p(item));
    assert(seq![item].filter(p) =~= Seq::<PinnedItem>::empty());
    assert(before.filter(p) + seq![item].filter(p) =~= before.filter(p));
}

/// A chat handle that names no chat ends the run in failure, so that no
/// message of any chat, before it or after it, is returned.
pub proof fn lemma_missing_chat_fails(chats: Seq<ChatLookup>, k: int)
    requires
        0 <= k < chats.len(),
        chats[k] is NotFound,
    ensures
        collected(chats) is Err,
{
    let pre = chats.subrange(0, k + 1);
    assert(pre.drop_last() =~= chats.subrange(0, k));
    assert(pre.last() == chats[k]);
    lemma_failure_persists(chats, k + 1);
}

} // verus!
