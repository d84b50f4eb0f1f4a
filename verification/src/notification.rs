//! Messages shown to the user for a while.
use vstd::prelude::*;

verus! {

/// How serious a notification is.
#[derive(Debug, Clone, Copy, PartialEq, Eq, Structural)]
pub enum NotificationLevel {
    Error,
    Warning,
    Info,
}

/// A message, its level, and how many ticks it stays on screen.
#[derive(Debug, Clone)]
pub struct Notification {
    pub message: String,
    pub level: NotificationLevel,
    pub ttl: u16,
}

impl Notification {
    /// A notification that stays for 10 ticks.
    pub fn new(message: String, level: NotificationLevel) -> (r: Self)
        ensures
            r.message == message,
            r.level == level,
            r.ttl == 10,
    {
        Notification { message, level, ttl: 10 }
    }

    /// An error notification that stays for 10 ticks.
    pub fn error(message: String) -> (r: Self)
        ensures
            r.message == message,
            r.level == NotificationLevel::Error,
            r.ttl == 10,
    {
        Notification { message, level: NotificationLevel::Error, ttl: 10 }
    }
}

/// A notification as plain values: its message, level and remaining ticks.
pub open spec fn notification_views(ns: Seq<Notification>) -> Seq<(Seq<char>, NotificationLevel, u16)> {
    ns.map_values(|n: Notification| (n.message@, n.level, n.ttl))
}

/// Every notification still has ticks to stay.
pub open spec fn all_alive(ns: Seq<Notification>) -> bool {
    forall|i: int| 0 <= i < ns.len() ==> #[trigger] ns[i].ttl > 0
}

/// The notifications after one tick: each loses a tick, and those left with
/// none are gone.
pub open spec fn ticked(vs: Seq<(Seq<char>, NotificationLevel, u16)>) -> Seq<
    (Seq<char>, NotificationLevel, u16),
> {
    vs.map_values(|v: (Seq<char>, NotificationLevel, u16)| (v.0, v.1, (v.2 - 1) as u16)).filter(
        |v: (Seq<char>, NotificationLevel, u16)| v.2 > 0,
    )
}

/// One tick of the clock: every notification loses a tick, and those left
/// with none are dropped.
pub fn tick(ns: &mut Vec<Notification>)
    requires
        all_alive(old(ns)@),
    ensures
        notification_views(final(ns)@) == ticked(notification_views(old(ns)@)),
        all_alive(final(ns)@),
{
    let ghost vs = notification_views(ns@);
    let ghost dec = vs.map_values(|v: (Seq<char>, NotificationLevel, u16)| (v.0, v.1, (v.2 - 1) as u16));
    let mut out: Vec<Notification> = Vec::new();
    let mut i: usize = 0;
    while i < ns.len()
        invariant
            i <= ns@.len(),
            vs == notification_views(ns@),
            dec == vs.map_values(|v: (Seq<char>, NotificationLevel, u16)| (v.0, v.1, (v.2 - 1) as u16)),
            all_alive(ns@),
            all_alive(out@),
            notification_views(out@) == dec.take(i as int).filter(
                |v: (Seq<char>, NotificationLevel, u16)| v.2 > 0,
            ),
        decreases ns@.len() - i,
    {
        proof {
            reveal(Seq::filter);
            assert(dec.take(i + 1).drop_last() =~= dec.take(i as int));
        }
        let ttl = ns[i].ttl - 1;
        if ttl > 0 {
            let ghost before = out@;
            let n = Notification { message: ns[i].message.clone(), level: ns[i].level, ttl };
            out.push(n);
            assert(notification_views(out@) =~= notification_views(before).push(dec[i as int]));
        }
        i = i + 1;
    }
    assert(dec.take(ns@.len() as int) =~= dec);
    *ns = out;
}

/// The notifications after `k` ticks.
pub open spec fn ticked_times(
    vs: Seq<(Seq<char>, NotificationLevel, u16)>,
    k: nat,
) -> Seq<(Seq<char>, NotificationLevel, u16)>
    decreases k,
{
    if k == 0 {
        vs
    } else {
        ticked(ticked_times(vs, (k - 1) as nat))
    }
}

/// One notification with `t` ticks left: after a tick it has `t - 1`, or is
/// gone when that is none.
proof fn lemma_tick_one(m: Seq<char>, l: NotificationLevel, t: u16)
    requires
        t > 0,
    ensures
        ticked(seq![(m, l, t)]) == if t > 1 {
            seq![(m, l, (t - 1) as u16)]
        } else {
            Seq::<(Seq<char>, NotificationLevel, u16)>::empty()
        },
{
    reveal(Seq::filter);
    let d = seq![(m, l, t)].map_values(
        |v: (Seq<char>, NotificationLevel, u16)| (v.0, v.1, (v.2 - 1) as u16),
    );
    assert(d =~= seq![(m, l, (t - 1) as u16)]);
    assert(d.drop_last() =~= Seq::<(Seq<char>, NotificationLevel, u16)>::empty());
    assert(Seq::<(Seq<char>, NotificationLevel, u16)>::empty().filter(
        |v: (Seq<char>, NotificationLevel, u16)| v.2 > 0,
    ) =~= Seq::<(Seq<char>, NotificationLevel, u16)>::empty());
    if t > 1 {
        assert(Seq::<(Seq<char>, NotificationLevel, u16)>::empty().push((m, l, (t - 1) as u16))
            =~= seq![(m, l, (t - 1) as u16)]);
    }
}

/// A notification made by `Notification::new` or `Notification::error`
/// (10 ticks) is still shown, with `10 - k` ticks left, after `k < 10`
/// ticks, and is gone after the tenth.
pub proof fn lemma_notification_lifetime(m: Seq<char>, l: NotificationLevel, k: nat)
    requires
        k <= 10,
    ensures
        k < 10 ==> ticked_times(seq![(m, l, 10u16)], k) == seq![(m, l, (10 - k) as u16)],
        k == 10 ==> ticked_times(seq![(m, l, 10u16)], k).len() == 0,
    decreases k,
{
    if k > 0 {
        lemma_notification_lifetime(m, l, (k - 1) as nat);
        lemma_tick_one(m, l, (10 - (k - 1)) as u16);
    }
}

/// The notifications `vs` after `k` ticks, told directly: in order, those
/// that had more than `k` ticks left, each with `k` ticks fewer.
pub open spec fn aged(vs: Seq<(Seq<char>, NotificationLevel, u16)>, k: nat) -> Seq<
    (Seq<char>, NotificationLevel, u16),
>
    decreases vs.len(),
{
    if vs.len() == 0 {
        vs
    } else {
        let rest = aged(vs.drop_last(), k);
        let v = vs.last();
        if v.2 > k {
            rest.push((v.0, v.1, (v.2 - k) as u16))
        } else {
            rest
        }
    }
}

/// Every notification of `vs` still has ticks to stay.
pub open spec fn all_views_alive(vs: Seq<(Seq<char>, NotificationLevel, u16)>) -> bool {
    forall|i: int| 0 <= i < vs.len() ==> #[trigger] vs[i].2 > 0
}

/// A tick on a list with one more notification at its end.
proof fn lemma_ticked_push(
    s: Seq<(Seq<char>, NotificationLevel, u16)>,
    x: (Seq<char>, NotificationLevel, u16),
)
    ensures
        ticked(s.push(x)) == if (x.2 - 1) as u16 > 0 {
            ticked(s).push((x.0, x.1, (x.2 - 1) as u16))
        } else {
            ticked(s)
        },
{
    reveal(Seq::filter);
    let f = |v: (Seq<char>, NotificationLevel, u16)| (v.0, v.1, (v.2 - 1) as u16);
    let m = s.push(x).map_values(f);
    assert(m =~= s.map_values(f).push(f(x)));
    assert(m.drop_last() =~= s.map_values(f));
}

/// Nothing has aged after no tick, when every notification is alive.
proof fn lemma_aged_none(vs: Seq<(Seq<char>, NotificationLevel, u16)>)
    requires
        all_views_alive(vs),
    ensures
        aged(vs, 0) == vs,
    decreases vs.len(),
{
    if vs.len() > 0 {
        let s = vs.drop_last();
        assert forall|i: int| 0 <= i < s.len() implies #[trigger] s[i].2 > 0 by {
            assert(s[i] == vs[i]);
        }
        lemma_aged_none(s);
        assert(vs.last().2 > 0);
        assert(s.push((vs.last().0, vs.last().1, (vs.last().2 - 0) as u16)) =~= vs);
    }
}

/// One more tick ages the list by one more.
proof fn lemma_aged_step(vs: Seq<(Seq<char>, NotificationLevel, u16)>, j: nat)
    ensures
        ticked(aged(vs, j)) == aged(vs, j + 1),
    decreases vs.len(),
{
    if vs.len() == 0 {
        reveal(Seq::filter);
        let e = Seq::<(Seq<char>, NotificationLevel, u16)>::empty();
        assert(e.map_values(
            |v: (Seq<char>, NotificationLevel, u16)| (v.0, v.1, (v.2 - 1) as u16),
        ) =~= e);
    } else {
        let s = vs.drop_last();
        let x = vs.last();
        lemma_aged_step(s, j);
        if x.2 > j {
            lemma_ticked_push(aged(s, j), (x.0, x.1, (x.2 - j) as u16));
        }
    }
}

/// After `k` ticks exactly the notifications that had more than `k` ticks
/// left are shown, in order, each with `k` ticks fewer: a notification made
/// with 10 ticks is still shown after nine ticks and gone at the tenth,
/// whatever other notifications there are.
pub proof fn lemma_notifications_age(vs: Seq<(Seq<char>, NotificationLevel, u16)>, k: nat)
    requires
        all_views_alive(vs),
    ensures
        ticked_times(vs, k) == aged(vs, k),
    decreases k,
{
    if k == 0 {
        lemma_aged_none(vs);
    } else {
        lemma_notifications_age(vs, (k - 1) as nat);
        lemma_aged_step(vs, (k - 1) as nat);
    }
}

} // verus!
