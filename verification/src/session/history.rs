//! The transcript of a conversation, and how it is rebuilt from a
//! recorded rollout.

use crate::protocol::items::{
    copy_items, ContentItem, ContentItemView, ResponseItem, ResponseItemView,
};
use crate::text::{chars_of, push_all, same_text, string_of};
use vstd::prelude::*;

verus! {

/// The items of a conversation, in order.
#[derive(Debug, PartialEq, Eq)]
pub struct ConversationHistory {
    pub items: Vec<ResponseItem>,
}

impl DeepView for ConversationHistory {
    type V = Seq<ResponseItemView>;

    open spec fn deep_view(&self) -> Seq<ResponseItemView> {
        self.items.deep_view()
    }
}

impl Clone for ConversationHistory {
    fn clone(&self) -> (r: Self)
        ensures
            r.deep_view() == self.deep_view(),
    {
        ConversationHistory { items: copy_items(&self.items) }
    }
}

impl Default for ConversationHistory {
    fn default() -> (r: Self)
        ensures
            r.deep_view() == Seq::<ResponseItemView>::empty(),
    {
        ConversationHistory::new()
    }
}

impl ConversationHistory {
    pub fn new() -> (r: Self)
        ensures
            r.deep_view() == Seq::<ResponseItemView>::empty(),
    {
        let items: Vec<ResponseItem> = Vec::new();
        proof {
            assert(items.deep_view() =~= Seq::<ResponseItemView>::empty());
        }
        ConversationHistory { items }
    }

    /// Appends `items`.
    pub fn record_items(&mut self, items: &Vec<ResponseItem>)
        ensures
            final(self).deep_view() == old(self).deep_view() + items.deep_view(),
    {
        let mut more = copy_items(items);
        let ghost a = self.items.deep_view();
        let ghost b = more.deep_view();
        self.items.append(&mut more);
        proof {
            assert(self.items.deep_view() =~= a + b);
        }
    }

    /// A copy of the items.
    pub fn contents(&self) -> (r: Vec<ResponseItem>)
        ensures
            r.deep_view() == self.deep_view(),
    {
        copy_items(&self.items)
    }

    /// Puts `items` in the place of all items.
    pub fn replace(&mut self, items: Vec<ResponseItem>)
        ensures
            final(self).deep_view() == items.deep_view(),
    {
        self.items = items;
    }
}

/// One entry of a rollout. Events and turn contexts are recorded too,
/// but play no part in rebuilding the transcript.
#[derive(Debug, PartialEq, Eq)]
pub enum RolloutItem {
    SessionMeta,
    ResponseItem(ResponseItem),
    EventMsg,
    TurnContext,
    Compacted { message: String },
}

pub enum RolloutItemView {
    Response(ResponseItemView),
    Compacted(Seq<char>),
    Other,
}

impl DeepView for RolloutItem {
    type V = RolloutItemView;

    open spec fn deep_view(&self) -> RolloutItemView {
        match self {
            RolloutItem::ResponseItem(item) => RolloutItemView::Response(item.deep_view()),
            RolloutItem::Compacted { message } => RolloutItemView::Compacted(message@),
            _ => RolloutItemView::Other,
        }
    }
}

/// The texts of a message's content, one after the other.
pub open spec fn content_text(content: Seq<ContentItemView>, n: int) -> Seq<char>
    decreases n,
{
    if n <= 0 {
        Seq::empty()
    } else {
        content_text(content, n - 1) + match content[n - 1] {
            ContentItemView::InputText { text } => text,
            ContentItemView::OutputText { text } => text,
            ContentItemView::InputImage { .. } => Seq::empty(),
        }
    }
}

/// Whether an item is a message of the user that is not part of the
/// initial context.
pub open spec fn is_user_message(item: ResponseItemView, context: Seq<ResponseItemView>) -> bool {
    item matches ResponseItemView::Message { role, .. } && role == "user"@ && !context.contains(
        item,
    )
}

/// The texts of the user's messages among the first `n` items.
pub open spec fn user_messages(
    items: Seq<ResponseItemView>,
    context: Seq<ResponseItemView>,
    n: int,
) -> Seq<Seq<char>>
    decreases n,
{
    if n <= 0 {
        Seq::empty()
    } else if is_user_message(items[n - 1], context) {
        user_messages(items, context, n - 1).push(
            content_text(
                items[n - 1]->Message_content,
                items[n - 1]->Message_content.len() as int,
            ),
        )
    } else {
        user_messages(items, context, n - 1)
    }
}

pub open spec fn user_item(text: Seq<char>) -> ResponseItemView {
    ResponseItemView::Message {
        id: None,
        role: "user"@,
        content: seq![ContentItemView::InputText { text }],
    }
}

pub open spec fn summary_item(text: Seq<char>) -> ResponseItemView {
    ResponseItemView::Message {
        id: None,
        role: "assistant"@,
        content: seq![ContentItemView::OutputText { text }],
    }
}

/// The transcript that takes the place of `items` when they are
/// compacted: the initial context, the user's messages so far, and the
/// summary.
pub open spec fn compacted(
    context: Seq<ResponseItemView>,
    items: Seq<ResponseItemView>,
    summary: Seq<char>,
) -> Seq<ResponseItemView> {
    let users = user_messages(items, context, items.len() as int);
    context + Seq::new(users.len(), |i: int| user_item(users[i])) + seq![summary_item(summary)]
}

/// The transcript after one more rollout entry.
pub open spec fn replay_step(
    context: Seq<ResponseItemView>,
    so_far: Seq<ResponseItemView>,
    entry: RolloutItemView,
) -> Seq<ResponseItemView> {
    match entry {
        RolloutItemView::Response(item) => so_far.push(item),
        RolloutItemView::Compacted(summary) => compacted(context, so_far, summary),
        RolloutItemView::Other => so_far,
    }
}

/// The transcript that the first `n` entries of a rollout give.
pub open spec fn replayed(
    context: Seq<ResponseItemView>,
    rollout: Seq<RolloutItemView>,
    n: int,
) -> Seq<ResponseItemView>
    decreases n,
{
    if n <= 0 {
        Seq::empty()
    } else {
        replay_step(context, replayed(context, rollout, n - 1), rollout[n - 1])
    }
}

/// What happens to the transcript of a live session: an item is
/// recorded, or the transcript is compacted into a summary.
pub enum HistoryOp {
    Record(ResponseItemView),
    Compact(Seq<char>),
}

/// The transcript of a live session after its first `n` operations.
pub open spec fn live(context: Seq<ResponseItemView>, ops: Seq<HistoryOp>, n: int) -> Seq<
    ResponseItemView,
>
    decreases n,
{
    if n <= 0 {
        Seq::empty()
    } else {
        let before = live(context, ops, n - 1);
        match ops[n - 1] {
            HistoryOp::Record(item) => before.push(item),
            HistoryOp::Compact(summary) => compacted(context, before, summary),
        }
    }
}

/// The number of entries among the first `n` of a rollout that bear on
/// the transcript.
pub open spec fn bearing(rollout: Seq<RolloutItemView>, n: int) -> int
    decreases n,
{
    if n <= 0 {
        0
    } else if rollout[n - 1] is Other {
        bearing(rollout, n - 1)
    } else {
        bearing(rollout, n - 1) + 1
    }
}

/// The first `n` entries of `rollout` record the first `m` of `ops`:
/// left aside the entries that do not bear on the transcript, each
/// entry is the record of the operation in its place.
pub open spec fn records(
    rollout: Seq<RolloutItemView>,
    n: int,
    ops: Seq<HistoryOp>,
    m: int,
) -> bool
    decreases n,
{
    if n <= 0 {
        m == 0
    } else {
        match rollout[n - 1] {
            RolloutItemView::Other => records(rollout, n - 1, ops, m),
            RolloutItemView::Response(item) => 0 < m <= ops.len() && ops[m - 1]
                == HistoryOp::Record(item) && records(rollout, n - 1, ops, m - 1),
            RolloutItemView::Compacted(summary) => 0 < m <= ops.len() && ops[m - 1]
                == HistoryOp::Compact(summary) && records(rollout, n - 1, ops, m - 1),
        }
    }
}

/// Rebuilding the transcript from a rollout gives the transcript of the
/// live session that the rollout records, however many compactions
/// there were and whatever else was recorded in between.
pub proof fn lemma_replay_equals_live(
    context: Seq<ResponseItemView>,
    rollout: Seq<RolloutItemView>,
    n: int,
    ops: Seq<HistoryOp>,
    m: int,
)
    requires
        0 <= n <= rollout.len(),
        records(rollout, n, ops, m),
    ensures
        replayed(context, rollout, n) == live(context, ops, m),
    decreases n,
{
    if n > 0 {
        match rollout[n - 1] {
            RolloutItemView::Other => {
                lemma_replay_equals_live(context, rollout, n - 1, ops, m);
            },
            _ => {
                lemma_replay_equals_live(context, rollout, n - 1, ops, m - 1);
            },
        }
    }
}

fn text_of_content(content: &Vec<ContentItem>) -> (r: String)
    ensures
        r@ == content_text(content.deep_view(), content.deep_view().len() as int),
{
    let mut out: Vec<char> = Vec::new();
    let mut i: usize = 0;
    while i < content.len()
        invariant
            i <= content.len(),
            out@ == content_text(content.deep_view(), i as int),
        decreases content.len() - i,
    {
        match &content[i] {
            ContentItem::InputText { text } => {
                let c = chars_of(text.as_str());
                push_all(&mut out, &c);
            },
            ContentItem::OutputText { text } => {
                let c = chars_of(text.as_str());
                push_all(&mut out, &c);
            },
            ContentItem::InputImage { .. } => {
                proof {
                    assert(out@ + Seq::<char>::empty() =~= out@);
                }
            },
        }
        i += 1;
    }
    string_of(&out)
}

fn same_content(a: &Vec<ContentItem>, b: &Vec<ContentItem>) -> (r: bool)
    ensures
        r == (a.deep_view() == b.deep_view()),
{
    if a.len() != b.len() {
        proof {
            assert(a.deep_view().len() != b.deep_view().len());
        }
        return false;
    }
    let mut i: usize = 0;
    while i < a.len()
        invariant
            i <= a.len(),
            a.len() == b.len(),
            forall|j: int| 0 <= j < i ==> a.deep_view()[j] == b.deep_view()[j],
        decreases a.len() - i,
    {
        let same = match (&a[i], &b[i]) {
            (ContentItem::InputText { text: x }, ContentItem::InputText { text: y }) => same_text(
                x.as_str(),
                y.as_str(),
            ),
            (
                ContentItem::InputImage { image_url: x },
                ContentItem::InputImage { image_url: y },
            ) => same_text(x.as_str(), y.as_str()),
            (ContentItem::OutputText { text: x }, ContentItem::OutputText { text: y }) => same_text(
                x.as_str(),
                y.as_str(),
            ),
            _ => false,
        };
        if !same {
            proof {
                assert(a.deep_view()[i as int] != b.deep_view()[i as int]);
            }
            return false;
        }
        i += 1;
    }
    proof {
        assert(a.deep_view() =~= b.deep_view());
    }
    true
}

fn same_message(a: &ResponseItem, b: &ResponseItem) -> (r: bool)
    requires
        a is Message,
    ensures
        r == (a.deep_view() == b.deep_view()),
{
    match (a, b) {
        (
            ResponseItem::Message { id: ia, role: ra, content: ca },
            ResponseItem::Message { id: ib, role: rb, content: cb },
        ) => {
            let ids = match (ia, ib) {
                (Some(x), Some(y)) => same_text(x.as_str(), y.as_str()),
                (None, None) => true,
                _ => false,
            };
            ids && same_text(ra.as_str(), rb.as_str()) && same_content(ca, cb)
        },
        _ => false,
    }
}

fn in_context(item: &ResponseItem, context: &Vec<ResponseItem>) -> (r: bool)
    requires
        item is Message,
    ensures
        r == context.deep_view().contains(item.deep_view()),
{
    let mut i: usize = 0;
    while i < context.len()
        invariant
            i <= context.len(),
            item is Message,
            forall|j: int| 0 <= j < i ==> context.deep_view()[j] != item.deep_view(),
        decreases context.len() - i,
    {
        if same_message(item, &context[i]) {
            proof {
                assert(context.deep_view()[i as int] == item.deep_view());
            }
            return true;
        }
        i += 1;
    }
    false
}

/// The texts of the user's messages in `items`, the initial context
/// left aside.
pub fn collect_user_messages(items: &Vec<ResponseItem>, context: &Vec<ResponseItem>) -> (r: Vec<
    String,
>)
    ensures
        r.deep_view() == user_messages(
            items.deep_view(),
            context.deep_view(),
            items.deep_view().len() as int,
        ),
{
    let mut out: Vec<String> = Vec::new();
    let mut i: usize = 0;
    proof {
        assert(out.deep_view() =~= user_messages(items.deep_view(), context.deep_view(), 0));
    }
    while i < items.len()
        invariant
            i <= items.len(),
            out.deep_view() == user_messages(items.deep_view(), context.deep_view(), i as int),
        decreases items.len() - i,
    {
        let ghost o0 = out.deep_view();
        match &items[i] {
            ResponseItem::Message { role, content, .. } => {
                if same_text(role.as_str(), "user") && !in_context(&items[i], context) {
                    let text = text_of_content(content);
                    out.push(text);
                    proof {
                        assert(out.deep_view() =~= o0.push(
                            content_text(content.deep_view(), content.deep_view().len() as int),
                        ));
                    }
                }
            },
            _ => {},
        }
        i += 1;
    }
    out
}

/// The transcript that takes the place of `items` when they are
/// compacted.
pub fn build_compacted_history(
    context: &Vec<ResponseItem>,
    items: &Vec<ResponseItem>,
    summary: &str,
) -> (r: Vec<ResponseItem>)
    ensures
        r.deep_view() == compacted(context.deep_view(), items.deep_view(), summary@),
{
    let users = collect_user_messages(items, context);
    let mut out = copy_items(context);
    let ghost c = context.deep_view();
    let ghost u = users.deep_view();
    let mut i: usize = 0;
    proof {
        assert(out.deep_view() =~= c + Seq::new(0, |k: int| user_item(u[k])));
    }
    while i < users.len()
        invariant
            i <= users.len(),
            u == users.deep_view(),
            out.deep_view() == c + Seq::new(i as nat, |k: int| user_item(u[k])),
        decreases users.len() - i,
    {
        let ghost o0 = out.deep_view();
        let mut content: Vec<ContentItem> = Vec::new();
        content.push(ContentItem::InputText { text: users[i].clone() });
        proof {
            assert(content.deep_view() =~= seq![ContentItemView::InputText { text: u[i as int] }]);
        }
        out.push(ResponseItem::Message { id: None, role: String::from_str("user"), content });
        proof {
            assert(out.deep_view() =~= o0.push(user_item(u[i as int])));
            assert(o0.push(user_item(u[i as int])) =~= c + Seq::new(
                (i + 1) as nat,
                |k: int| user_item(u[k]),
            ));
        }
        i += 1;
    }
    let ghost o1 = out.deep_view();
    let mut content: Vec<ContentItem> = Vec::new();
    content.push(ContentItem::OutputText { text: String::from_str(summary) });
    proof {
        assert(content.deep_view() =~= seq![ContentItemView::OutputText { text: summary@ }]);
    }
    out.push(ResponseItem::Message { id: None, role: String::from_str("assistant"), content });
    proof {
        assert(out.deep_view() =~= o1.push(summary_item(summary@)));
        assert(o1.push(summary_item(summary@)) =~= compacted(c, items.deep_view(), summary@));
    }
    out
}

/// Rebuilds the transcript from a rollout: an item is appended, and a
/// compaction puts the initial context, the user's messages so far and
/// its summary in the place of what was there.
pub fn reconstruct_history_from_rollout(
    context: &Vec<ResponseItem>,
    rollout_items: &Vec<RolloutItem>,
) -> (r: Vec<ResponseItem>)
    ensures
        r.deep_view() == replayed(
            context.deep_view(),
            rollout_items.deep_view(),
            rollout_items.deep_view().len() as int,
        ),
{
    let mut history = ConversationHistory::new();
    let mut i: usize = 0;
    while i < rollout_items.len()
        invariant
            i <= rollout_items.len(),
            history.deep_view() == replayed(
                context.deep_view(),
                rollout_items.deep_view(),
                i as int,
            ),
        decreases rollout_items.len() - i,
    {
        let ghost h0 = history.deep_view();
        match &rollout_items[i] {
            RolloutItem::ResponseItem(item) => {
                let mut one: Vec<ResponseItem> = Vec::new();
                one.push(item.clone());
                proof {
                    assert(one.deep_view() =~= seq![item.deep_view()]);
                }
                history.record_items(&one);
                proof {
                    assert(h0 + seq![item.deep_view()] =~= h0.push(item.deep_view()));
                }
            },
            RolloutItem::Compacted { message } => {
                let snapshot = history.contents();
                let rebuilt = build_compacted_history(context, &snapshot, message.as_str());
                history.replace(rebuilt);
            },
            _ => {},
        }
        i += 1;
    }
    history.contents()
}

} // verus!
