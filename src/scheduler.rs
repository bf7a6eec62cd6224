use vstd::prelude::*;
use vstd::string::StringExecFns;
use crate::text::{split_words, views, whitespace_words, words_after};

verus! {

/// Seconds after a task's last run during which it does not fire again.
pub const RERUN_GUARD_SECS: i64 = 90;

/// Seconds between two ticks of the scheduler loop.
pub const TICK_SECS: u64 = 60;

/// One cron-triggered action, as it is persisted.
#[derive(Clone, Debug)]
pub struct ScheduledTask {
    pub id: String,
    pub name: String,
    /// "restart", "backup" or "command".
    pub task_type: String,
    pub server_id: String,
    pub server_name: String,
    pub server_path: String,
    /// Five fields; only the minute and the hour are evaluated.
    pub cron_expression: String,
    pub enabled: bool,
    /// When the task last fired, as an RFC 3339 timestamp.
    pub last_run: Option<String>,
    pub command: Option<String>,
}

/// The local wall-clock time of one tick.
pub struct LocalTime {
    /// Whole seconds since the Unix epoch.
    pub unix_secs: i64,
    /// Nanoseconds past `unix_secs`.
    pub nanos: u32,
    pub hour: u32,
    pub minute: u32,
    /// The same instant as an RFC 3339 timestamp in the local offset.
    pub stamp: String,
}

/// The scheduler's guard: whether its loop has been started in this process.
pub struct SchedulerState {
    pub running: bool,
}

impl SchedulerState {
    /// A guard whose loop has not been started yet.
    pub fn new() -> (r: SchedulerState)
        ensures
            !r.running,
    {
        SchedulerState { running: false }
    }

    /// Claims the right to run the loop: true the first time only.
    pub fn try_begin(&mut self) -> (r: bool)
        ensures
            r == !old(self).running,
            final(self).running,
    {
        if self.running {
            false
        } else {
            self.running = true;
            true
        }
    }
}

/// The instant (seconds since the epoch, nanoseconds) that chrono's
/// RFC 3339 parser reads from `s`, if it accepts it.
pub uninterp spec fn rfc3339_instant(s: Seq<char>) -> Option<(i64, u32)>;

/// Relies on `chrono::Local::now`: the current local time, whose hour and
/// minute are in range as chrono's `Timelike` documents.
#[verifier::external_body]
pub(crate) fn local_now() -> (r: LocalTime)
    ensures
        r.hour < 24,
        r.minute < 60,
{
    let now = chrono::Local::now();
    LocalTime {
        unix_secs: now.timestamp(),
        nanos: now.timestamp_subsec_nanos(),
        hour: chrono::Timelike::hour(&now),
        minute: chrono::Timelike::minute(&now),
        stamp: now.to_rfc3339(),
    }
}

/// Relies on `chrono::DateTime::parse_from_rfc3339`: the instant that `s`
/// denotes, or `None` when chrono rejects it.
#[verifier::external_body]
fn parse_rfc3339(s: &str) -> (r: Option<(i64, u32)>)
    ensures
        r == rfc3339_instant(s@),
{
    chrono::DateTime::parse_from_rfc3339(s).ok().map(|d| (d.timestamp(), d.timestamp_subsec_nanos()))
}

pub open spec fn is_digit(c: char) -> bool {
    '0' <= c && c <= '9'
}

/// The value of a run of decimal digits.
pub open spec fn digits_value(s: Seq<char>) -> nat
    decreases s.len(),
{
    if s.len() == 0 {
        0
    } else {
        digits_value(s.drop_last()) * 10 + ((s.last() as u32) - ('0' as u32)) as nat
    }
}

/// The digits of an unsigned number, after an optional leading '+'.
pub open spec fn unsigned_body(s: Seq<char>) -> Seq<char> {
    if s.len() > 0 && s[0] == '+' { s.drop_first() } else { s }
}

/// What `str::parse::<u32>` gives: an optional '+', then at least one digit,
/// with a value that fits.
pub open spec fn parsed_u32(s: Seq<char>) -> Option<u32> {
    let b = unsigned_body(s);
    if b.len() > 0 && (forall|i: int| 0 <= i < b.len() ==> is_digit(#[trigger] b[i]))
        && digits_value(b) <= u32::MAX {
        Some(digits_value(b) as u32)
    } else {
        None
    }
}

/// A cron field matches a value: the wildcard matches anything, a number
/// only itself, anything else nothing.
pub open spec fn field_matches(p: Seq<char>, v: u32) -> bool {
    p == seq!['*'] || parsed_u32(p) == Some(v)
}

/// A cron expression, split in words, is due at this hour and minute: it
/// has five fields and the first two match; the other three are not evaluated.
pub open spec fn cron_due(fields: Seq<Seq<char>>, minute: u32, hour: u32) -> bool {
    fields.len() == 5 && field_matches(fields[0], minute) && field_matches(fields[1], hour)
}

/// Nanoseconds from `last` (seconds, nanoseconds) to `now`.
pub open spec fn elapsed_nanos(now: LocalTime, last: (i64, u32)) -> int {
    (now.unix_secs - last.0) * 1_000_000_000 + now.nanos - last.1
}

/// Fewer than the guard's whole seconds have passed since `last_run`; a
/// missing or unreadable timestamp never counts as recent.
pub open spec fn ran_recently_spec(last_run: Option<String>, now: LocalTime) -> bool {
    match last_run {
        Some(s) => match rfc3339_instant(s@) {
            Some(last) => elapsed_nanos(now, last) < RERUN_GUARD_SECS * 1_000_000_000,
            None => false,
        },
        None => false,
    }
}

/// The task fires at this tick.
pub open spec fn fires(t: ScheduledTask, now: LocalTime) -> bool {
    t.enabled && cron_due(whitespace_words(t.cron_expression@), now.minute, now.hour)
        && !ran_recently_spec(t.last_run, now)
}

/// The task after this tick: stamped with the tick's time if it fired.
pub open spec fn after_tick(t: ScheduledTask, now: LocalTime) -> ScheduledTask {
    if fires(t, now) {
        ScheduledTask { last_run: Some(now.stamp), ..t }
    } else {
        t
    }
}

/// What a fired task asks for.
#[derive(Debug)]
pub enum TaskAction {
    /// Create a backup of kind "auto" of this server directory.
    Backup { server_path: String, server_name: String },
    /// Stop the server, wait, and start it again with its stored configuration.
    Restart { server_id: String, server_name: String },
    /// Write this console command to the server, if it is running.
    Command { server_id: String, command: String },
    /// Nothing: an unknown kind, or a command task without a command.
    Nothing,
}

/// The action of a task, by its kind.
pub open spec fn action_of(t: ScheduledTask) -> TaskAction {
    if t.task_type@ == "backup"@ {
        TaskAction::Backup { server_path: t.server_path, server_name: t.server_name }
    } else if t.task_type@ == "restart"@ {
        TaskAction::Restart { server_id: t.server_id, server_name: t.server_name }
    } else if t.task_type@ == "command"@ && t.command is Some {
        TaskAction::Command { server_id: t.server_id, command: t.command->Some_0 }
    } else {
        TaskAction::Nothing
    }
}

/// The actions of the tasks that fire at this tick, in list order.
pub open spec fn fired_actions(ts: Seq<ScheduledTask>, now: LocalTime) -> Seq<TaskAction>
    decreases ts.len(),
{
    if ts.len() == 0 {
        Seq::empty()
    } else if fires(ts.last(), now) {
        fired_actions(ts.drop_last(), now).push(action_of(ts.last()))
    } else {
        fired_actions(ts.drop_last(), now)
    }
}

/// Whether `s` is the single character `c`.
fn is_single(s: &str, c: char) -> (r: bool)
    ensures
        r == (s@ == seq![c]),
{
    if s.unicode_len() != 1 {
        return false;
    }
    let first = s.get_char(0);
    if first == c {
        assert(s@ =~= seq![c]);
        true
    } else {
        false
    }
}

proof fn digits_value_grows(s: Seq<char>, d: char)
    requires
        is_digit(d),
    ensures
        digits_value(s.push(d)) == digits_value(s) * 10 + ((d as u32) - ('0' as u32)) as nat,
        digits_value(s.push(d)) >= digits_value(s),
{
    assert(s.push(d).drop_last() =~= s);
}

/// The number that `s` denotes, as `str::parse::<u32>` reads it.
pub fn parse_u32(s: &str) -> (r: Option<u32>)
    ensures
        r == parsed_u32(s@),
{
    let n = s.unicode_len();
    let start: usize = if n > 0 && s.get_char(0) == '+' { 1 } else { 0 };
    let ghost b = unsigned_body(s@);
    assert(b =~= s@.subrange(start as int, n as int));
    if start == n {
        assert(b.len() == 0);
        return None;
    }
    let mut acc: u64 = 0;
    let mut i: usize = start;
    while i < n
        invariant
            n == s@.len(),
            start <= i <= n,
            start < n,
            b == unsigned_body(s@),
            b == s@.subrange(start as int, n as int),
            forall|j: int| 0 <= j < i - start ==> is_digit(#[trigger] b[j]),
            acc == if digits_value(b.take(i - start)) <= u32::MAX {
                digits_value(b.take(i - start))
            } else {
                u32::MAX as nat + 1
            },
        decreases n - i,
    {
        let c = s.get_char(i);
        if !('0' <= c && c <= '9') {
            assert(!is_digit(b[i - start]));
            return None;
        }
        let d = (c as u32 - '0' as u32) as u64;
        proof {
            assert(b.take(i - start + 1) =~= b.take(i - start).push(c));
            digits_value_grows(b.take(i - start), c);
        }
        if acc > u32::MAX as u64 {
            acc = u32::MAX as u64 + 1;
        } else {
            let next = acc * 10 + d;
            if next > u32::MAX as u64 {
                acc = u32::MAX as u64 + 1;
            } else {
                acc = next;
            }
        }
        i = i + 1;
    }
    assert(b.take(n - start) =~= b);
    if acc > u32::MAX as u64 {
        None
    } else {
        Some(acc as u32)
    }
}

/// Whether one cron field matches `value`.
pub fn cron_field_matches(pattern: &str, value: u32) -> (r: bool)
    ensures
        r == field_matches(pattern@, value),
{
    if is_single(pattern, '*') {
        return true;
    }
    match parse_u32(pattern) {
        Some(v) => v == value,
        None => false,
    }
}

/// Whether the cron fields are due at this hour and minute.
pub fn fields_due(fields: &Vec<String>, minute: u32, hour: u32) -> (r: bool)
    ensures
        r == cron_due(views(fields@), minute, hour),
{
    if fields.len() != 5 {
        return false;
    }
    cron_field_matches(fields[0].as_str(), minute) && cron_field_matches(fields[1].as_str(), hour)
}

/// Whether the cron expression is due at the tick's hour and minute.
pub fn is_time_to_run(cron: &str, now: &LocalTime) -> (r: bool)
    ensures
        r == cron_due(whitespace_words(cron@), now.minute, now.hour),
{
    let fields = split_words(cron);
    fields_due(&fields, now.minute, now.hour)
}

/// Whether fewer than the guard's seconds have passed since the instant `last`.
pub fn within_guard(now: &LocalTime, last: (i64, u32)) -> (r: bool)
    ensures
        r == (elapsed_nanos(*now, last) < RERUN_GUARD_SECS * 1_000_000_000),
{
    let secs: i128 = now.unix_secs as i128 - last.0 as i128;
    assert(-0x1_0000_0000_0000_0000 <= secs <= 0x1_0000_0000_0000_0000);
    assert(-0x1_0000_0000_0000_0000 * 1_000_000_000 <= secs * 1_000_000_000
        <= 0x1_0000_0000_0000_0000 * 1_000_000_000) by (nonlinear_arith)
        requires
            -0x1_0000_0000_0000_0000 <= secs <= 0x1_0000_0000_0000_0000,
    ;
    let total: i128 = secs * 1_000_000_000 + now.nanos as i128 - last.1 as i128;
    total < (RERUN_GUARD_SECS as i128) * 1_000_000_000
}

/// Whether the task ran fewer than the guard's seconds ago.
pub fn ran_recently(last_run: &Option<String>, now: &LocalTime) -> (r: bool)
    ensures
        r == ran_recently_spec(*last_run, *now),
{
    match last_run {
        Some(s) => match parse_rfc3339(s.as_str()) {
            Some(last) => within_guard(now, last),
            None => false,
        },
        None => false,
    }
}

/// Whether the task fires at this tick.
pub fn task_fires(t: &ScheduledTask, now: &LocalTime) -> (r: bool)
    ensures
        r == fires(*t, *now),
{
    t.enabled && is_time_to_run(t.cron_expression.as_str(), now) && !ran_recently(&t.last_run, now)
}

/// The action that a task asks for.
pub fn task_action(t: &ScheduledTask) -> (r: TaskAction)
    ensures
        r == action_of(*t),
{
    if t.task_type == String::from_str("backup") {
        TaskAction::Backup { server_path: t.server_path.clone(), server_name: t.server_name.clone() }
    } else if t.task_type == String::from_str("restart") {
        TaskAction::Restart { server_id: t.server_id.clone(), server_name: t.server_name.clone() }
    } else if t.task_type == String::from_str("command") && t.command.is_some() {
        match &t.command {
            Some(c) => TaskAction::Command { server_id: t.server_id.clone(), command: c.clone() },
            None => TaskAction::Nothing,
        }
    } else {
        TaskAction::Nothing
    }
}

/// One tick: every enabled task whose cron is due and that did not run within
/// the guard is stamped with the tick's time; the actions of those tasks are
/// returned in list order. Nothing else about any task changes.
pub fn plan_tick(tasks: &mut Vec<ScheduledTask>, now: &LocalTime) -> (r: Vec<TaskAction>)
    ensures
        final(tasks)@.len() == old(tasks)@.len(),
        forall|i: int|
            0 <= i < old(tasks)@.len() ==> #[trigger] final(tasks)@[i] == after_tick(old(tasks)@[i], *now),
        r@ == fired_actions(old(tasks)@, *now),
{
    let ghost orig = tasks@;
    let mut actions: Vec<TaskAction> = Vec::new();
    let mut i: usize = 0;
    while i < tasks.len()
        invariant
            tasks@.len() == orig.len(),
            i <= orig.len(),
            forall|j: int| 0 <= j < i ==> #[trigger] tasks@[j] == after_tick(orig[j], *now),
            forall|j: int| i <= j < orig.len() ==> #[trigger] tasks@[j] == orig[j],
            actions@ == fired_actions(orig.take(i as int), *now),
        decreases orig.len() - i,
    {
        assert(orig.take(i + 1).drop_last() =~= orig.take(i as int));
        if task_fires(&tasks[i], now) {
            actions.push(task_action(&tasks[i]));
            tasks[i].last_run = Some(now.stamp.clone());
        }
        i = i + 1;
    }
    assert(orig.take(orig.len() as int) =~= orig);
    actions
}

/// The tick's timestamp reads back as the tick's own instant.
pub open spec fn stamp_reads_back(now: LocalTime) -> bool {
    rfc3339_instant(now.stamp@) == Some((now.unix_secs, now.nanos))
}

/// One tick at the current local time, whose hour and minute are in range
/// and which is returned too. When the tick's timestamp reads back as its own
/// instant, the tick is `plan_tick` at that time; otherwise a stamp would not
/// guard the next ticks, so nothing fires and no task changes.
pub fn scheduler_tick(tasks: &mut Vec<ScheduledTask>) -> (r: (Vec<TaskAction>, LocalTime))
    ensures
        r.1.hour < 24,
        r.1.minute < 60,
        final(tasks)@.len() == old(tasks)@.len(),
        stamp_reads_back(r.1) ==> forall|i: int|
            0 <= i < old(tasks)@.len() ==> #[trigger] final(tasks)@[i] == after_tick(old(tasks)@[i], r.1),
        stamp_reads_back(r.1) ==> r.0@ == fired_actions(old(tasks)@, r.1),
        !stamp_reads_back(r.1) ==> final(tasks)@ == old(tasks)@ && r.0@.len() == 0,
{
    let now = local_now();
    let readable = match parse_rfc3339(now.stamp.as_str()) {
        Some(back) => back.0 == now.unix_secs && back.1 == now.nanos,
        None => false,
    };
    if !readable {
        return (Vec::new(), now);
    }
    let actions = plan_tick(tasks, &now);
    (actions, now)
}

/// A tick changes no field of a task but its last run, and it only ever sets
/// that to the tick's own timestamp.
pub proof fn tick_changes_only_last_run(t: ScheduledTask, now: LocalTime)
    ensures
        after_tick(t, now) == (ScheduledTask { last_run: after_tick(t, now).last_run, ..t }),
        after_tick(t, now).last_run == t.last_run || after_tick(t, now).last_run == Some(now.stamp),
{
}

/// A task's last run never moves back: a task fires only once the guard's
/// seconds have passed since the instant its last run reads as, and the stamp
/// it then gets reads as the tick's instant, which lies that much later. A clock
/// that went back never makes it fire.
pub proof fn last_run_never_decreases(t: ScheduledTask, now: LocalTime, last: (i64, u32))
    requires
        stamp_reads_back(now),
        t.last_run is Some,
        rfc3339_instant(t.last_run->Some_0@) == Some(last),
    ensures
        after_tick(t, now).last_run == t.last_run || {
            &&& after_tick(t, now).last_run == Some(now.stamp)
            &&& rfc3339_instant(now.stamp@) == Some((now.unix_secs, now.nanos))
            &&& elapsed_nanos(now, last) >= RERUN_GUARD_SECS * 1_000_000_000
        },
{
}

/// A task that fired at a tick does not fire again at a tick less than the
/// guard's seconds later, when its timestamp reads back as the tick's instant.
pub proof fn fired_task_is_guarded(t: ScheduledTask, now: LocalTime, later: LocalTime)
    requires
        fires(t, now),
        stamp_reads_back(now),
        elapsed_nanos(later, (now.unix_secs, now.nanos)) < RERUN_GUARD_SECS * 1_000_000_000,
    ensures
        !fires(after_tick(t, now), later),
{
}

proof fn half_past_two_fields()
    ensures
        whitespace_words("30 14 * * *"@) == seq![seq!['3', '0'], seq!['1', '4'], seq!['*'], seq!['*'], seq!['*']],
        parsed_u32(seq!['3', '0']) == Some(30u32),
        parsed_u32(seq!['1', '4']) == Some(14u32),
{
    reveal_strlit("30 14 * * *");
    let s = "30 14 * * *"@;
    let e = Seq::<char>::empty();
    let star = seq!['*'];
    assert(s =~= seq!['3', '0', ' ', '1', '4', ' ', '*', ' ', '*', ' ', '*']);
    assert forall|k: int| 0 <= k < 11 implies #[trigger] s.skip(k).drop_first() =~= s.skip(k + 1) by {}
    assert(s.skip(11) =~= e);
    assert(e.push('*') =~= star);
    assert(words_after(s.skip(11), star) == seq![star]);
    assert(words_after(s.skip(10), e) == seq![star]);
    assert(words_after(s.skip(9), star) =~= seq![star, star]);
    assert(words_after(s.skip(8), e) =~= seq![star, star]);
    assert(words_after(s.skip(7), star) =~= seq![star, star, star]);
    assert(words_after(s.skip(6), e) =~= seq![star, star, star]);
    let fourteen = seq!['1', '4'];
    assert(words_after(s.skip(5), fourteen) =~= seq![fourteen, star, star, star]);
    assert(seq!['1'].push('4') =~= fourteen);
    assert(words_after(s.skip(4), seq!['1']) =~= seq![fourteen, star, star, star]);
    assert(e.push('1') =~= seq!['1']);
    assert(words_after(s.skip(3), e) =~= seq![fourteen, star, star, star]);
    let thirty = seq!['3', '0'];
    assert(words_after(s.skip(2), thirty) =~= seq![thirty, fourteen, star, star, star]);
    assert(seq!['3'].push('0') =~= thirty);
    assert(words_after(s.skip(1), seq!['3']) =~= seq![thirty, fourteen, star, star, star]);
    assert(e.push('3') =~= seq!['3']);
    assert(s.skip(0) =~= s);
    assert(words_after(s, e) =~= seq![thirty, fourteen, star, star, star]);

    assert(unsigned_body(thirty) == thirty);
    assert(thirty.drop_last() =~= seq!['3']);
    assert(seq!['3'].drop_last() =~= e);
    assert(digits_value(e) == 0);
    assert(seq!['3'].last() == '3' && ('3' as u32) - ('0' as u32) == 3);
    assert(digits_value(seq!['3']) == 3);
    assert(thirty.last() == '0' && ('0' as u32) - ('0' as u32) == 0);
    assert(digits_value(thirty) == 30);
    assert(unsigned_body(fourteen) == fourteen);
    assert(fourteen.drop_last() =~= seq!['1']);
    assert(seq!['1'].drop_last() =~= e);
    assert(seq!['1'].last() == '1' && ('1' as u32) - ('0' as u32) == 1);
    assert(digits_value(seq!['1']) == 1);
    assert(fourteen.last() == '4' && ('4' as u32) - ('0' as u32) == 4);
    assert(digits_value(fourteen) == 14);
}

/// A task set for "30 14 * * *" fires exactly at 14:30, when it is enabled
/// and did not run within the guard: not at 14:29 or 14:31, nor again less
/// than the guard's seconds after it last ran.
pub proof fn half_past_two_fires_only_then(t: ScheduledTask, now: LocalTime)
    requires
        t.cron_expression@ == "30 14 * * *"@,
    ensures
        fires(t, now) <==> (t.enabled && now.hour == 14 && now.minute == 30 && !ran_recently_spec(
            t.last_run,
            now,
        )),
{
    half_past_two_fields();
    assert(seq!['3', '0'] != seq!['*']);
    assert(seq!['1', '4'] != seq!['*']);
}

} // verus!
