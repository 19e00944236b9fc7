//! The topic activity store: topics in first-seen order, each with its
//! messages in arrival order, and a selection cursor over the topics.

use vstd::arithmetic::div_mod::{lemma_add_mod_noop, lemma_small_mod, lemma_sub_mod_noop, lemma_mod_self_0};
use vstd::prelude::*;

verus! {

/// One received message: its payload as text and when it arrived.
pub struct MessageActivity {
    pub payload: String,
    pub timestamp: String,
}

/// A topic and the messages received on it, oldest first.
pub struct TopicActivity {
    pub name: String,
    pub messages: Vec<MessageActivity>,
}

/// The store shared by the ingestion side and the topic screen.
pub struct TopicActivityMenuState {
    pub topics: Vec<TopicActivity>,
    pub selected_index: usize,
}

/// Mathematical content of a message.
pub struct MessageView {
    pub payload: Seq<char>,
    pub timestamp: Seq<char>,
}

/// Mathematical content of a topic.
pub struct TopicView {
    pub name: Seq<char>,
    pub messages: Seq<MessageView>,
}

impl View for MessageActivity {
    type V = MessageView;

    open spec fn view(&self) -> MessageView {
        MessageView { payload: self.payload@, timestamp: self.timestamp@ }
    }
}

impl View for TopicActivity {
    type V = TopicView;

    open spec fn view(&self) -> TopicView {
        TopicView { name: self.name@, messages: self.messages@.map_values(|m: MessageActivity| m@) }
    }
}

/// Index that `next` moves to from `sel` over `len` topics.
pub open spec fn next_index(sel: nat, len: nat) -> nat {
    if len == 0 {
        sel
    } else {
        ((sel + 1) % len) as nat
    }
}

/// Index that `previous` moves to from `sel` over `len` topics.
pub open spec fn previous_index(sel: nat, len: nat) -> nat {
    if len == 0 {
        sel
    } else if sel == 0 {
        (len - 1) as nat
    } else {
        (sel - 1) as nat
    }
}

/// No two topics share a name.
pub open spec fn names_distinct(ts: Seq<TopicView>) -> bool {
    forall|i: int, j: int| 0 <= i < j < ts.len() ==> ts[i].name != ts[j].name
}

/// Index of the first topic named `name`, or -1 when there is none.
pub open spec fn topic_position(ts: Seq<TopicView>, name: Seq<char>) -> int
    decreases ts.len(),
{
    if ts.len() == 0 {
        -1
    } else if topic_position(ts.drop_last(), name) >= 0 {
        topic_position(ts.drop_last(), name)
    } else if ts.last().name == name {
        ts.len() - 1
    } else {
        -1
    }
}

/// The topics after one message for `name` arrived: appended to the
/// existing topic of that name, or to a new topic at the end.
pub open spec fn upsert_topics(ts: Seq<TopicView>, name: Seq<char>, msg: MessageView) -> Seq<
    TopicView,
> {
    let p = topic_position(ts, name);
    if p >= 0 {
        ts.update(p, TopicView { name: ts[p].name, messages: ts[p].messages.push(msg) })
    } else {
        ts.push(TopicView { name, messages: seq![msg] })
    }
}

/// `topic_position` finds the first topic of that name, if any.
pub proof fn lemma_topic_position(ts: Seq<TopicView>, name: Seq<char>)
    ensures
        -1 <= topic_position(ts, name) < ts.len(),
        topic_position(ts, name) == -1 <==> forall|j: int| 0 <= j < ts.len() ==> ts[j].name != name,
        topic_position(ts, name) >= 0 ==> ts[topic_position(ts, name)].name == name,
        forall|j: int| 0 <= j < topic_position(ts, name) ==> ts[j].name != name,
    decreases ts.len(),
{
    if ts.len() > 0 {
        lemma_topic_position(ts.drop_last(), name);
        assert forall|j: int| 0 <= j < ts.len() - 1 implies ts[j] == ts.drop_last()[j] by {}
    }
}

impl TopicActivityMenuState {
    pub open spec fn topics_view(&self) -> Seq<TopicView> {
        self.topics@.map_values(|t: TopicActivity| t@)
    }

    /// The cursor points at a topic, or is 0 when there is none.
    pub open spec fn selection_valid(&self) -> bool {
        if self.topics.len() == 0 {
            self.selected_index == 0
        } else {
            self.selected_index < self.topics.len()
        }
    }

    /// The store's invariant.
    pub open spec fn wf(&self) -> bool {
        self.selection_valid() && names_distinct(self.topics_view())
    }

    /// An empty store with the cursor at 0.
    pub fn new() -> (r: Self)
        ensures
            r.topics@.len() == 0,
            r.selected_index == 0,
            r.wf(),
    {
        Self { topics: Vec::new(), selected_index: 0 }
    }

    /// Whether the cursor points at a topic, or is 0 with no topics.
    pub fn selection_is_valid(&self) -> (r: bool)
        ensures
            r == self.selection_valid(),
    {
        if self.topics.len() == 0 {
            self.selected_index == 0
        } else {
            self.selected_index < self.topics.len()
        }
    }

    /// Move the selection to the next topic, wrapping after the last one.
    pub fn next(&mut self)
        requires
            old(self).selection_valid(),
        ensures
            final(self).topics@ == old(self).topics@,
            final(self).selected_index == next_index(
                old(self).selected_index as nat,
                old(self).topics.len() as nat,
            ),
            final(self).selection_valid(),
    {
        if !self.topics.is_empty() {
            self.selected_index = (self.selected_index + 1) % self.topics.len();
        }
    }

    /// Move the selection to the previous topic, wrapping before the first one.
    pub fn previous(&mut self)
        requires
            old(self).selection_valid(),
        ensures
            final(self).topics@ == old(self).topics@,
            final(self).selected_index == previous_index(
                old(self).selected_index as nat,
                old(self).topics.len() as nat,
            ),
            final(self).selection_valid(),
    {
        if !self.topics.is_empty() {
            if self.selected_index == 0 {
                self.selected_index = self.topics.len() - 1;
            } else {
                self.selected_index -= 1;
            }
        }
    }
}

impl TopicActivityMenuState {
    /// The frame to draw: read only, so the store is left as it was.
    pub fn snapshot(&self) -> (r: ActivitySnapshot)
        ensures
            r@ == snapshot_of(self.topics_view(), self.selected_index as nat),
    {
        let ghost ts = self.topics_view();
        let mut names: Vec<String> = Vec::new();
        let n = self.topics.len();
        let mut i: usize = 0;
        while i < n
            invariant
                n == self.topics.len(),
                i <= n,
                ts == self.topics_view(),
                names@.len() == i,
                forall|j: int| 0 <= j < i ==> #[trigger] names@[j]@ == ts[j].name,
            decreases n - i,
        {
            names.push(self.topics[i].name.clone());
            i += 1;
        }
        let mut activity: Vec<ActivityLine> = Vec::new();
        if self.selected_index < n {
            let t = &self.topics[self.selected_index];
            activity.push(ActivityLine::Heading(t.name.clone()));
            activity.push(ActivityLine::Blank);
            if t.messages.len() == 0 {
                activity.push(ActivityLine::NoMessages);
            } else {
                let m = t.messages.len();
                let mut k: usize = 0;
                while k < m
                    invariant
                        m == t.messages.len(),
                        k <= m,
                        activity@.len() == k + 2,
                        activity@[0]@ == LineView::Heading(t.name@),
                        activity@[1]@ == LineView::Blank,
                        forall|j: int|
                            0 <= j < k ==> #[trigger] activity@[j + 2]@ == message_line(
                                t.messages@[j]@,
                            ),
                    decreases m - k,
                {
                    let msg = &t.messages[k];
                    activity.push(
                        ActivityLine::Message {
                            timestamp: msg.timestamp.clone(),
                            payload: msg.payload.clone(),
                        },
                    );
                    k += 1;
                }
            }
            proof {
                let tv = ts[self.selected_index as int];
                assert(tv == t@);
                let lines = activity@.map_values(|l: ActivityLine| l@);
                if t.messages.len() == 0 {
                    assert(lines =~= seq![LineView::Heading(tv.name), LineView::Blank] + seq![
                        LineView::NoMessages,
                    ]);
                } else {
                    assert forall|i: int| 2 <= i < lines.len() implies lines[i] == message_line(
                        tv.messages[i - 2],
                    ) by {
                        assert(activity@[(i - 2) + 2]@ == message_line(t.messages@[i - 2]@));
                    }
                    assert(lines =~= seq![LineView::Heading(tv.name), LineView::Blank]
                        + tv.messages.map_values(|m: MessageView| message_line(m)));
                }
            }
        } else {
            activity.push(ActivityLine::NoTopics);
        }
        let r = ActivitySnapshot {
            topic_names: names,
            selected_index: self.selected_index,
            activity,
        };
        assert(r@.topic_names =~= ts.map_values(|t: TopicView| t.name));
        assert(r@.activity =~= activity_of(ts, self.selected_index as nat));
        r
    }

    /// Record `message` under `topic_name`: appended to that topic's log, or
    /// to a new topic at the end when the name was not seen before.
    pub fn upsert(&mut self, topic_name: String, message: MessageActivity)
        ensures
            final(self).topics_view() == upsert_topics(
                old(self).topics_view(),
                topic_name@,
                message@,
            ),
            final(self).selected_index == old(self).selected_index,
            old(self).selection_valid() ==> final(self).selection_valid(),
            old(self).wf() ==> final(self).wf(),
    {
        let ghost ts = self.topics_view();
        proof {
            lemma_topic_position(ts, topic_name@);
        }
        let n = self.topics.len();
        let mut i: usize = 0;
        while i < n
            invariant
                n == self.topics.len(),
                i <= n,
                ts == self.topics_view(),
                forall|j: int| 0 <= j < i ==> ts[j].name != topic_name@,
            ensures
                i <= n,
                forall|j: int| 0 <= j < i ==> ts[j].name != topic_name@,
                i < n ==> ts[i as int].name == topic_name@,
            decreases n - i,
        {
            if self.topics[i].name == topic_name {
                break;
            }
            i += 1;
        }
        if i < n {
            assert(topic_position(ts, topic_name@) == i);
            self.topics[i].messages.push(message);
            assert(self.topics@[i as int]@.messages =~= ts[i as int].messages.push(message@));
            assert(self.topics_view() =~= upsert_topics(ts, topic_name@, message@));
        } else {
            let ghost m = message@;
            let t = TopicActivity { name: topic_name, messages: vec![message] };
            assert(t@.messages =~= seq![m]);
            self.topics.push(t);
            assert(self.topics_view() =~= upsert_topics(ts, topic_name@, message@));
        }
    }
}

/// One line of the activity pane.
#[derive(Debug, PartialEq)]
pub enum ActivityLine {
    /// The selected topic's name, above its messages.
    Heading(String),
    /// An empty separator line.
    Blank,
    /// Stands in for the messages of a topic that has none.
    NoMessages,
    /// One message with its arrival time.
    Message { timestamp: String, payload: String },
    /// Stands alone when there is no topic to show.
    NoTopics,
}

/// What one frame of the topic screen shows: the topic list, the cursor,
/// and the activity pane of the selected topic.
#[derive(Debug, PartialEq)]
pub struct ActivitySnapshot {
    pub topic_names: Vec<String>,
    pub selected_index: usize,
    pub activity: Vec<ActivityLine>,
}

pub enum LineView {
    Heading(Seq<char>),
    Blank,
    NoMessages,
    Message { timestamp: Seq<char>, payload: Seq<char> },
    NoTopics,
}

pub struct SnapshotView {
    pub topic_names: Seq<Seq<char>>,
    pub selected_index: nat,
    pub activity: Seq<LineView>,
}

impl View for ActivityLine {
    type V = LineView;

    open spec fn view(&self) -> LineView {
        match self {
            ActivityLine::Heading(n) => LineView::Heading(n@),
            ActivityLine::Blank => LineView::Blank,
            ActivityLine::NoMessages => LineView::NoMessages,
            ActivityLine::Message { timestamp, payload } => LineView::Message {
                timestamp: timestamp@,
                payload: payload@,
            },
            ActivityLine::NoTopics => LineView::NoTopics,
        }
    }
}

impl View for ActivitySnapshot {
    type V = SnapshotView;

    open spec fn view(&self) -> SnapshotView {
        SnapshotView {
            topic_names: self.topic_names@.map_values(|n: String| n@),
            selected_index: self.selected_index as nat,
            activity: self.activity@.map_values(|l: ActivityLine| l@),
        }
    }
}

/// The line that shows one message.
pub open spec fn message_line(m: MessageView) -> LineView {
    LineView::Message { timestamp: m.timestamp, payload: m.payload }
}

/// The activity pane: the selected topic's name, a blank line, then its
/// messages oldest first (or a placeholder when it has none); a single
/// placeholder line when no topic is selected.
pub open spec fn activity_of(ts: Seq<TopicView>, sel: nat) -> Seq<LineView> {
    if sel < ts.len() {
        let t = ts[sel as int];
        seq![LineView::Heading(t.name), LineView::Blank] + if t.messages.len() == 0 {
            seq![LineView::NoMessages]
        } else {
            t.messages.map_values(|m: MessageView| message_line(m))
        }
    } else {
        seq![LineView::NoTopics]
    }
}

/// The frame that the topic screen draws for these topics and this cursor.
pub open spec fn snapshot_of(ts: Seq<TopicView>, sel: nat) -> SnapshotView {
    SnapshotView {
        topic_names: ts.map_values(|t: TopicView| t.name),
        selected_index: sel,
        activity: activity_of(ts, sel),
    }
}

/// Taking a snapshot twice with no change to the store in between gives
/// equal snapshots.
pub proof fn lemma_snapshot_stable(
    topics1: Seq<TopicView>,
    sel1: nat,
    topics2: Seq<TopicView>,
    sel2: nat,
)
    requires
        topics1 == topics2,
        sel1 == sel2,
    ensures
        snapshot_of(topics1, sel1) == snapshot_of(topics2, sel2),
{
}

/// The topics that a sequence of `(topic name, message)` arrivals builds
/// from an empty store, one `upsert` per arrival.
pub open spec fn replay(events: Seq<(Seq<char>, MessageView)>) -> Seq<TopicView>
    decreases events.len(),
{
    if events.len() == 0 {
        seq![]
    } else {
        upsert_topics(replay(events.drop_last()), events.last().0, events.last().1)
    }
}

/// The distinct topic names of `events`, each once, in the order in which
/// they first appear.
pub open spec fn first_seen_names(events: Seq<(Seq<char>, MessageView)>) -> Seq<Seq<char>>
    decreases events.len(),
{
    if events.len() == 0 {
        seq![]
    } else {
        let prev = first_seen_names(events.drop_last());
        if prev.contains(events.last().0) {
            prev
        } else {
            prev.push(events.last().0)
        }
    }
}

/// The messages of `events` that arrived for `name`, in arrival order.
pub open spec fn messages_for(events: Seq<(Seq<char>, MessageView)>, name: Seq<char>) -> Seq<
    MessageView,
>
    decreases events.len(),
{
    if events.len() == 0 {
        seq![]
    } else {
        let prev = messages_for(events.drop_last(), name);
        if events.last().0 == name {
            prev.push(events.last().1)
        } else {
            prev
        }
    }
}

/// One topic per distinct name of `events`, in first-seen order, each with
/// the messages that arrived for it.
pub open spec fn grouped(events: Seq<(Seq<char>, MessageView)>) -> Seq<TopicView> {
    first_seen_names(events).map_values(
        |n: Seq<char>| TopicView { name: n, messages: messages_for(events, n) },
    )
}

proof fn lemma_push_contains<A>(s: Seq<A>, x: A, n: A)
    ensures
        s.push(x).contains(n) <==> (s.contains(n) || n == x),
{
    if s.contains(n) {
        let j = choose|j: int| 0 <= j < s.len() && s[j] == n;
        assert(s.push(x)[j] == n);
    }
    if n == x {
        assert(s.push(x)[s.len() as int] == x);
    }
    if s.push(x).contains(n) {
        let j = choose|j: int| 0 <= j < s.len() + 1 && s.push(x)[j] == n;
        if j < s.len() {
            assert(s[j] == n);
        }
    }
}

proof fn lemma_first_seen(events: Seq<(Seq<char>, MessageView)>)
    ensures
        first_seen_names(events).no_duplicates(),
        forall|n: Seq<char>|
            first_seen_names(events).contains(n) <==> exists|i: int|
                0 <= i < events.len() && #[trigger] events[i].0 == n,
        forall|n: Seq<char>|
            !first_seen_names(events).contains(n) ==> #[trigger] messages_for(events, n) == Seq::<
                MessageView,
            >::empty(),
    decreases events.len(),
{
    if events.len() > 0 {
        let prev = events.drop_last();
        let last = events.last().0;
        lemma_first_seen(prev);
        let fs = first_seen_names(prev);
        let fse = first_seen_names(events);
        assert forall|n: Seq<char>| fse.contains(n) <==> (fs.contains(n) || n == last) by {
            lemma_push_contains(fs, last, n);
        }
        if !fs.contains(last) {
            assert forall|i: int, j: int| 0 <= i < j < fse.len() implies fse[i] != fse[j] by {
                if j == fs.len() {
                    assert(fs[i] == fse[i]);
                }
            }
        }
        assert forall|n: Seq<char>|
            fse.contains(n) <==> exists|i: int|
                0 <= i < events.len() && #[trigger] events[i].0 == n by {
            if fs.contains(n) {
                let i = choose|i: int| 0 <= i < prev.len() && #[trigger] prev[i].0 == n;
                assert(events[i].0 == n);
            }
            if n == last {
                assert(events[events.len() - 1].0 == n);
            }
            if exists|i: int| 0 <= i < events.len() && #[trigger] events[i].0 == n {
                let i = choose|i: int| 0 <= i < events.len() && #[trigger] events[i].0 == n;
                if i < events.len() - 1 {
                    assert(prev[i].0 == n);
                }
            }
        }
        assert forall|n: Seq<char>| !fse.contains(n) implies #[trigger] messages_for(events, n)
            == Seq::<MessageView>::empty() by {
            assert(!fs.contains(n) && n != last);
            assert(messages_for(prev, n) == Seq::<MessageView>::empty());
        }
    }
}

/// Whatever sequence of arrivals is applied to an empty store, the store
/// holds each distinct topic name exactly once, in first-seen order, and
/// each topic's messages are those that arrived for its name, in order.
pub proof fn lemma_replay_groups_by_topic(events: Seq<(Seq<char>, MessageView)>)
    ensures
        replay(events) == grouped(events),
        first_seen_names(events).no_duplicates(),
        forall|n: Seq<char>|
            first_seen_names(events).contains(n) <==> exists|i: int|
                0 <= i < events.len() && #[trigger] events[i].0 == n,
        names_distinct(replay(events)),
    decreases events.len(),
{
    lemma_first_seen(events);
    if events.len() == 0 {
        assert(grouped(events) =~= seq![]);
    } else {
        let prev = events.drop_last();
        let (n, m) = events.last();
        lemma_replay_groups_by_topic(prev);
        lemma_first_seen(prev);
        let ts = replay(prev);
        let names = first_seen_names(prev);
        lemma_topic_position(ts, n);
        let p = topic_position(ts, n);
        if names.contains(n) {
            let k = names.index_of(n);
            assert(ts[k].name == n);
            assert(p >= 0);
            assert(p == k);
            assert(replay(events) =~= grouped(events));
        } else {
            assert(forall|j: int| 0 <= j < ts.len() ==> ts[j].name != n);
            assert(messages_for(prev, n) == Seq::<MessageView>::empty());
            assert(replay(events) =~= grouped(events));
        }
    }
}

/// The cursor after `k` calls of `next` from `sel` over `len` topics.
pub open spec fn next_times(sel: nat, len: nat, k: nat) -> nat
    decreases k,
{
    if k == 0 {
        sel
    } else {
        next_index(next_times(sel, len, (k - 1) as nat), len)
    }
}

/// The cursor after `k` calls of `previous` from `sel` over `len` topics.
pub open spec fn previous_times(sel: nat, len: nat, k: nat) -> nat
    decreases k,
{
    if k == 0 {
        sel
    } else {
        previous_index(previous_times(sel, len, (k - 1) as nat), len)
    }
}

proof fn lemma_next_times_mod(sel: nat, len: nat, k: nat)
    requires
        sel < len,
    ensures
        next_times(sel, len, k) == (sel as int + k) % (len as int),
    decreases k,
{
    if k == 0 {
        lemma_small_mod(sel, len);
    } else {
        lemma_next_times_mod(sel, len, (k - 1) as nat);
        let a = sel as int + k - 1;
        lemma_add_mod_noop(a, 1, len as int);
        if len == 1 {
            lemma_mod_self_0(1);
        } else {
            lemma_small_mod(1, len);
        }
        assert(((a % (len as int)) + 1) % (len as int) == (a + 1) % (len as int));
    }
}

proof fn lemma_previous_times_mod(sel: nat, len: nat, k: nat)
    requires
        sel < len,
    ensures
        previous_times(sel, len, k) == (sel as int - k) % (len as int),
    decreases k,
{
    let m = len as int;
    if k == 0 {
        lemma_small_mod(sel, len);
    } else {
        lemma_previous_times_mod(sel, len, (k - 1) as nat);
        let a = sel as int - (k - 1);
        let r = a % m;
        lemma_sub_mod_noop(a, 1, m);
        if len == 1 {
            lemma_mod_self_0(1);
            assert((a - 1) % m == 0);
        } else {
            lemma_small_mod(1, len);
            assert((r - 1) % m == (a - 1) % m);
            if r == 0 {
                assert((r - 1) % m == m - 1) by {
                    lemma_small_mod((m - 1) as nat, len);
                    vstd::arithmetic::div_mod::lemma_mod_sub_multiples_vanish(m - 1, m);
                }
            } else {
                lemma_small_mod((r - 1) as nat, len);
            }
        }
    }
}

/// Calling `next` as many times as there are topics brings the cursor back
/// to where it started; so does calling `previous` that many times.
pub proof fn lemma_selection_cycles(sel: nat, len: nat)
    requires
        sel < len || (len == 0 && sel == 0),
    ensures
        next_times(sel, len, len) == sel,
        previous_times(sel, len, len) == sel,
{
    if len > 0 {
        lemma_next_times_mod(sel, len, len);
        lemma_previous_times_mod(sel, len, len);
        vstd::arithmetic::div_mod::lemma_mod_add_multiples_vanish(sel as int, len as int);
        vstd::arithmetic::div_mod::lemma_mod_sub_multiples_vanish(sel as int, len as int);
        lemma_small_mod(sel, len);
    }
}

/// On an empty store, `next` and `previous` leave the cursor where it is.
pub proof fn lemma_empty_selection_fixed(sel: nat)
    ensures
        next_index(sel, 0) == sel,
        previous_index(sel, 0) == sel,
{
}

} // verus!
