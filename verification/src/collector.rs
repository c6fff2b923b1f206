//! The metrics the exporter serves, and how a balance becomes metrics.

use vstd::prelude::*;

use crate::error::Error;
use crate::metric::{metric_text, Metric, MetricType, MetricView};
use crate::text::hundredths_text;
use crate::model::GetBalance;

verus! {

/// The metrics by name, in the order they were first recorded.
pub type Entries = Seq<(Seq<char>, MetricView)>;

/// No name occurs twice.
pub open spec fn keys_distinct(s: Entries) -> bool {
    forall|i: int, j: int| 0 <= i < s.len() && 0 <= j < s.len() && i != j ==> s[i].0 != s[j].0
}

/// Some entry has the name `k`.
pub open spec fn has_key(s: Entries, k: Seq<char>) -> bool {
    exists|i: int| 0 <= i < s.len() && s[i].0 == k
}

/// The position of the entry named `k`.
pub open spec fn key_position(s: Entries, k: Seq<char>) -> int {
    choose|i: int| 0 <= i < s.len() && s[i].0 == k
}

/// The metric named `k`, if any.
pub open spec fn lookup(s: Entries, k: Seq<char>) -> Option<MetricView> {
    if has_key(s, k) {
        Some(s[key_position(s, k)].1)
    } else {
        None
    }
}

/// The entries after recording `m` under `k`: the entry named `k` is
/// replaced in place, or, where there is none, `(k, m)` is added at the end.
pub open spec fn inserted(s: Entries, k: Seq<char>, m: MetricView) -> Entries {
    if has_key(s, k) {
        s.update(key_position(s, k), (k, m))
    } else {
        s.push((k, m))
    }
}

/// The stats page: each metric's exposition followed by an empty line.
pub open spec fn render_text(s: Entries) -> Seq<char>
    decreases s.len(),
{
    if s.len() == 0 {
        seq![]
    } else {
        render_text(s.drop_last()) + metric_text(s.last().0, s.last().1) + "\n"@
    }
}

/// The name of the balance metric.
pub open spec fn balance_key() -> Seq<char> {
    "monzo_balance"@
}

/// The name of the balance-with-savings metric.
pub open spec fn balance_flexible_savings_key() -> Seq<char> {
    "monzo_balance_including_flexible_savings"@
}

/// The balance gauge of a balance reply, in pounds.
pub open spec fn balance_gauge(b: GetBalance) -> MetricView {
    MetricView {
        hundredths: b.balance as int,
        metric_type: MetricType::Gauge,
        help: "Current account balance"@,
    }
}

/// The balance-with-savings gauge of a balance reply, in pounds.
pub open spec fn flexible_savings_gauge(b: GetBalance) -> MetricView {
    MetricView {
        hundredths: b.balance_including_flexible_savings as int,
        metric_type: MetricType::Gauge,
        help: "Balance including pots"@,
    }
}

/// The entries after a balance reply is recorded: the balance and the balance
/// including flexible savings, as gauges in pounds.
pub open spec fn with_balance(s: Entries, b: GetBalance) -> Entries {
    inserted(
        inserted(s, balance_key(), balance_gauge(b)),
        balance_flexible_savings_key(),
        flexible_savings_gauge(b),
    )
}

/// The two gauges of a balance reply, in the order they are first recorded.
pub open spec fn balance_gauges(b: GetBalance) -> Entries {
    seq![(balance_key(), balance_gauge(b)), (balance_flexible_savings_key(), flexible_savings_gauge(b))]
}

/// The entries of a store that starts empty and records the balance replies
/// `polls`, one after the other.
pub open spec fn polled(polls: Seq<GetBalance>) -> Entries
    decreases polls.len(),
{
    if polls.len() == 0 {
        seq![]
    } else {
        with_balance(polled(polls.drop_last()), polls.last())
    }
}

/// The two metric names differ.
pub proof fn lemma_balance_keys_differ()
    ensures
        balance_key() != balance_flexible_savings_key(),
{
    reveal_strlit("monzo_balance");
    reveal_strlit("monzo_balance_including_flexible_savings");
    assert(balance_key().len() != balance_flexible_savings_key().len());
}

proof fn lemma_with_balance_gauges(s: Entries, b: GetBalance)
    requires
        s.len() == 0 || exists|prev: GetBalance| s == balance_gauges(prev),
    ensures
        with_balance(s, b) == balance_gauges(b),
{
    lemma_balance_keys_differ();
    let k1 = balance_key();
    let k2 = balance_flexible_savings_key();
    if s.len() == 0 {
        let s1 = inserted(s, k1, balance_gauge(b));
        assert(!has_key(s, k1));
        assert(s1 =~= seq![(k1, balance_gauge(b))]);
        assert(!has_key(s1, k2)) by {
            if has_key(s1, k2) {
                let i = choose|i: int| 0 <= i < s1.len() && s1[i].0 == k2;
                assert(i == 0);
            }
        }
        assert(with_balance(s, b) =~= balance_gauges(b));
    } else {
        let prev = choose|prev: GetBalance| s == balance_gauges(prev);
        assert(s[0].0 == k1);
        assert(has_key(s, k1));
        assert(key_position(s, k1) == 0);
        let s1 = inserted(s, k1, balance_gauge(b));
        assert(s1 =~= seq![(k1, balance_gauge(b)), (k2, flexible_savings_gauge(prev))]);
        assert(s1[1].0 == k2);
        assert(has_key(s1, k2));
        assert(key_position(s1, k2) == 1);
        assert(with_balance(s, b) =~= balance_gauges(b));
    }
}

/// A store that records balance replies from empty holds nothing before the
/// first reply, and after it exactly the two gauges of the latest reply,
/// named distinctly: no other name ever appears, every metric is a gauge,
/// and neither gauge is ever dropped.
pub proof fn law_polled_store(polls: Seq<GetBalance>)
    ensures
        polls.len() == 0 ==> polled(polls) == Seq::<(Seq<char>, MetricView)>::empty(),
        polls.len() > 0 ==> polled(polls) == balance_gauges(polls.last()),
        keys_distinct(polled(polls)),
        forall|i: int|
            0 <= i < polled(polls).len() ==> (#[trigger] polled(polls)[i]).1.metric_type
                == MetricType::Gauge && (polled(polls)[i].0 == balance_key() || polled(polls)[i].0
                == balance_flexible_savings_key()),
    decreases polls.len(),
{
    lemma_balance_keys_differ();
    if polls.len() > 0 {
        law_polled_store(polls.drop_last());
        let prev = polled(polls.drop_last());
        if polls.drop_last().len() > 0 {
            assert(prev == balance_gauges(polls.drop_last().last()));
        } else {
            assert(prev =~= Seq::<(Seq<char>, MetricView)>::empty());
        }
        lemma_with_balance_gauges(prev, polls.last());
    } else {
        assert(polled(polls) =~= Seq::<(Seq<char>, MetricView)>::empty());
    }
}

/// A name that a polled store holds is still held after one more poll.
pub proof fn law_poll_keeps_names(polls: Seq<GetBalance>, b: GetBalance, k: Seq<char>)
    requires
        has_key(polled(polls), k),
    ensures
        has_key(polled(polls.push(b)), k),
{
    law_polled_store(polls);
    law_polled_store(polls.push(b));
    assert(polls.push(b).drop_last() =~= polls);
    let i = choose|i: int| 0 <= i < polled(polls).len() && polled(polls)[i].0 == k;
    assert(polled(polls)[i].0 == k);
    assert(polled(polls.push(b))[i].0 == k);
}

/// Recording a metric keeps names distinct; a read of its name then gives it
/// back, and a read of any other name gives what it gave before.
pub proof fn law_insert_then_lookup(s: Entries, k: Seq<char>, m: MetricView)
    requires
        keys_distinct(s),
    ensures
        keys_distinct(inserted(s, k, m)),
        lookup(inserted(s, k, m), k) == Some(m),
        forall|k2: Seq<char>| k2 != k ==> lookup(inserted(s, k, m), k2) == lookup(s, k2),
{
    let t = inserted(s, k, m);
    if has_key(s, k) {
        let p = key_position(s, k);
        assert(t[p].0 == k);
        assert forall|k2: Seq<char>| k2 != k implies lookup(t, k2) == lookup(s, k2) by {
            if has_key(s, k2) {
                let q = key_position(s, k2);
                assert(t[q].0 == k2);
            }
            if has_key(t, k2) {
                let q = key_position(t, k2);
                assert(s[q].0 == k2);
            }
        }
    } else {
        let p = s.len() as int;
        assert(t[p].0 == k);
        assert forall|k2: Seq<char>| k2 != k implies lookup(t, k2) == lookup(s, k2) by {
            if has_key(s, k2) {
                let q = key_position(s, k2);
                assert(t[q].0 == k2);
            }
            if has_key(t, k2) {
                let q = key_position(t, k2);
                assert(s[q].0 == k2);
            }
        }
    }
}

/// Recording the same metric twice under one name leaves the same entries as
/// recording it once.
pub proof fn law_insert_idempotent(s: Entries, k: Seq<char>, m: MetricView)
    requires
        keys_distinct(s),
    ensures
        inserted(inserted(s, k, m), k, m) == inserted(s, k, m),
{
    law_insert_then_lookup(s, k, m);
    let t = inserted(s, k, m);
    assert(has_key(t, k));
    let p = key_position(t, k);
    assert(t.update(p, (k, m)) =~= t);
}

/// The stats page of no metrics is empty.
pub proof fn law_render_empty()
    ensures
        render_text(Seq::<(Seq<char>, MetricView)>::empty()).len() == 0,
{
}

/// Every metric shows on the stats page: recording one more metric at the
/// end of the entries appends its HELP line, TYPE line and sample line, and
/// then an empty line, to the page, whatever the metric's value.
pub proof fn law_render_push(s: Entries, key: Seq<char>, m: MetricView)
    ensures
        render_text(s.push((key, m))) == render_text(s) + "# HELP "@ + key + " "@ + m.help + "\n"@
            + "# TYPE "@ + key + " "@ + m.metric_type.name() + "\n"@ + key + "{} "@
            + hundredths_text(m.hundredths) + "\n"@ + "\n"@,
{
    assert(s.push((key, m)).drop_last() =~= s);
    assert(render_text(s.push((key, m))) == render_text(s) + metric_text(key, m) + "\n"@);
    assert(render_text(s) + metric_text(key, m) + "\n"@ =~= render_text(s) + "# HELP "@ + key + " "@
        + m.help + "\n"@ + "# TYPE "@ + key + " "@ + m.metric_type.name() + "\n"@ + key + "{} "@
        + hundredths_text(m.hundredths) + "\n"@ + "\n"@);
}

/// After a balance reply `b` is recorded, whatever the store held before,
/// reading `monzo_balance` back gives a gauge of `b.balance` hundredths
/// described as "Current account balance", reading
/// `monzo_balance_including_flexible_savings` back gives a gauge of
/// `b.balance_including_flexible_savings` hundredths described as "Balance
/// including pots", and every other name reads as before.
pub proof fn law_record_balance_reads_back(s: Entries, b: GetBalance)
    requires
        keys_distinct(s),
    ensures
        keys_distinct(with_balance(s, b)),
        lookup(with_balance(s, b), "monzo_balance"@) == Some(
            MetricView {
                hundredths: b.balance as int,
                metric_type: MetricType::Gauge,
                help: "Current account balance"@,
            },
        ),
        lookup(with_balance(s, b), "monzo_balance_including_flexible_savings"@) == Some(
            MetricView {
                hundredths: b.balance_including_flexible_savings as int,
                metric_type: MetricType::Gauge,
                help: "Balance including pots"@,
            },
        ),
        forall|k: Seq<char>|
            k != "monzo_balance"@ && k != "monzo_balance_including_flexible_savings"@ ==> lookup(
                with_balance(s, b),
                k,
            ) == lookup(s, k),
{
    lemma_balance_keys_differ();
    let k1 = balance_key();
    let k2 = balance_flexible_savings_key();
    law_insert_then_lookup(s, k1, balance_gauge(b));
    let mid = inserted(s, k1, balance_gauge(b));
    law_insert_then_lookup(mid, k2, flexible_savings_gauge(b));
}

/// The metrics the exporter serves, each under a name of its own.
pub struct MetricStore {
    entries: Vec<(String, Metric)>,
}

impl View for MetricStore {
    type V = Entries;

    closed spec fn view(&self) -> Entries {
        self.entries@.map_values(|e: (String, Metric)| (e.0@, e.1@))
    }
}

impl MetricStore {
    #[verifier::type_invariant]
    closed spec fn names_distinct(&self) -> bool {
        keys_distinct(self@)
    }

    /// A store without metrics.
    pub fn new() -> (store: MetricStore)
        ensures
            store@ == Seq::<(Seq<char>, MetricView)>::empty(),
            keys_distinct(store@),
    {
        let store = MetricStore { entries: Vec::new() };
        assert(store@ =~= Seq::<(Seq<char>, MetricView)>::empty());
        store
    }

    /// The number of metrics.
    pub fn len(&self) -> (n: usize)
        ensures
            n == self@.len(),
    {
        self.entries.len()
    }

    fn position(&self, key: &String) -> (r: Option<usize>)
        ensures
            r matches Some(i) ==> i < self@.len() && self@[i as int].0 == key@,
            r is None ==> !has_key(self@, key@),
    {
        let mut i: usize = 0;
        while i < self.entries.len()
            invariant
                i <= self.entries@.len(),
                forall|j: int| 0 <= j < i ==> self@[j].0 != key@,
            decreases self.entries@.len() - i,
        {
            if self.entries[i].0 == *key {
                return Some(i);
            }
            i = i + 1;
        }
        None
    }

    /// The metric recorded under `key`, if any.
    pub fn get(&self, key: &str) -> (m: Option<&Metric>)
        ensures
            m matches Some(x) ==> lookup(self@, key@) == Some(x@),
            m is None ==> lookup(self@, key@) is None,
    {
        proof {
            use_type_invariant(self);
        }
        let k = key.to_owned();
        match self.position(&k) {
            Some(i) => {
                assert(key_position(self@, key@) == i as int);
                Some(&self.entries[i].1)
            },
            None => None,
        }
    }

    /// Records `metric` under `key`, replacing the metric that was there.
    pub fn insert(&mut self, key: String, metric: Metric)
        ensures
            final(self)@ == inserted(old(self)@, key@, metric@),
            keys_distinct(final(self)@),
            lookup(final(self)@, key@) == Some(metric@),
            forall|k: Seq<char>| k != key@ ==> lookup(final(self)@, k) == lookup(old(self)@, k),
    {
        proof {
            use_type_invariant(&*self);
            law_insert_then_lookup(self@, key@, metric@);
        }
        let ghost old_view = self@;
        let ghost new_entry = (key@, metric@);
        match self.position(&key) {
            Some(i) => {
                assert(key_position(old_view, key@) == i as int);
                let mut entries: Vec<(String, Metric)> = Vec::new();
                std::mem::swap(&mut entries, &mut self.entries);
                entries.set(i, (key, metric));
                assert(entries@.map_values(|e: (String, Metric)| (e.0@, e.1@)) =~= old_view.update(
                    i as int,
                    new_entry,
                ));
                self.entries = entries;
            },
            None => {
                let mut entries: Vec<(String, Metric)> = Vec::new();
                std::mem::swap(&mut entries, &mut self.entries);
                entries.push((key, metric));
                assert(entries@.map_values(|e: (String, Metric)| (e.0@, e.1@)) =~= old_view.push(
                    new_entry,
                ));
                self.entries = entries;
            },
        }
    }

    /// The stats page: every metric in the exposition format, each followed
    /// by an empty line.
    pub fn render(&self) -> (page: String)
        ensures
            page@ == render_text(self@),
    {
        let mut page = String::new();
        let mut i: usize = 0;
        while i < self.entries.len()
            invariant
                i <= self.entries@.len(),
                page@ == render_text(self@.take(i as int)),
            decreases self.entries@.len() - i,
        {
            let entry = &self.entries[i];
            let formatted = entry.1.format(entry.0.as_str());
            page.append(formatted.as_str());
            page.append("\n");
            assert(self@.take(i + 1).drop_last() =~= self@.take(i as int));
            i = i + 1;
        }
        assert(self@.take(i as int) =~= self@);
        page
    }

    /// Records a balance reply: the balance and the balance including
    /// flexible savings, as gauges in pounds.
    pub fn record_balance(&mut self, balance: &GetBalance)
        ensures
            final(self)@ == with_balance(old(self)@, *balance),
            keys_distinct(final(self)@),
            lookup(final(self)@, balance_key()) == Some(balance_gauge(*balance)),
            lookup(final(self)@, balance_flexible_savings_key()) == Some(
                flexible_savings_gauge(*balance),
            ),
            lookup(final(self)@, "monzo_balance"@) == Some(
                MetricView {
                    hundredths: balance.balance as int,
                    metric_type: MetricType::Gauge,
                    help: "Current account balance"@,
                },
            ),
            lookup(final(self)@, "monzo_balance_including_flexible_savings"@) == Some(
                MetricView {
                    hundredths: balance.balance_including_flexible_savings as int,
                    metric_type: MetricType::Gauge,
                    help: "Balance including pots"@,
                },
            ),
            forall|k: Seq<char>|
                k != balance_key() && k != balance_flexible_savings_key() ==> lookup(final(self)@, k)
                    == lookup(old(self)@, k),
    {
        proof {
            lemma_balance_keys_differ();
        }
        self.insert("monzo_balance".to_owned(), Metric::gauge(balance.balance, "Current account balance".to_owned()));
        let ghost middle = self@;
        self.insert(
            "monzo_balance_including_flexible_savings".to_owned(),
            Metric::gauge(balance.balance_including_flexible_savings, "Balance including pots".to_owned()),
        );
        assert(lookup(middle, balance_key()) == Some(balance_gauge(*balance)));
    }
}

/// How long the collector waits between two balance requests, in seconds.
pub const POLL_INTERVAL_SECONDS: u64 = 15;

/// What is logged when a balance request fails.
pub open spec fn balance_error_text(e: Error) -> Seq<char> {
    "Error retrieving balance: "@ + e.debug_text()
}

/// What is logged when a balance request fails.
pub fn balance_error_message(e: &Error) -> (s: String)
    ensures
        s@ == balance_error_text(*e),
{
    let mut s = "Error retrieving balance: ".to_owned();
    let d = e.debug_string();
    s.append(d.as_str());
    s
}

} // verus!
