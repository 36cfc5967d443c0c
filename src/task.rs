use vstd::arithmetic::div_mod::lemma_fundamental_div_mod;
use vstd::arithmetic::div_mod::lemma_fundamental_div_mod_converse_mod;
use vstd::prelude::*;
use vstd::string::*;

verus! {

/// Seconds in a day.
pub const SECS_PER_DAY: i64 = 86400;

/// The daily boundary at which recurring and snoozed tasks reappear: 05:00,
/// in seconds after midnight.
pub const ANCHOR_SECS: i64 = 18000;

/// A whole number of days, in seconds, at least as large as the magnitude of
/// every `i64` instant: adding it makes any instant non-negative without
/// moving it within its day.
const DAY_ALIGNED_SHIFT: i128 = 9223372036854806400;

/// What a task holds, as plain values. Instants are seconds since
/// 1970-01-01 00:00:00 of local wall-clock time.
pub struct TaskModel {
    pub id: u128,
    pub description: Seq<char>,
    pub dot: bool,
    pub completed_at: Option<i64>,
    pub recur_interval_days: Option<u64>,
    pub recur_next: Option<i64>,
    pub snooze_until: Option<i64>,
}

impl TaskModel {
    /// A freshly added task: nothing set but its id and description.
    pub open spec fn fresh(id: u128, description: Seq<char>) -> TaskModel {
        TaskModel {
            id,
            description,
            dot: false,
            completed_at: None,
            recur_interval_days: None,
            recur_next: None,
            snooze_until: None,
        }
    }

    pub open spec fn is_complete(self) -> bool {
        self.completed_at is Some
    }

    pub open spec fn is_recurring(self) -> bool {
        self.recur_interval_days is Some
    }

    /// The snooze is set and its instant has come.
    pub open spec fn snooze_expiring(self, now: i64) -> bool {
        self.snooze_until matches Some(t) && now >= t
    }

    /// Waiting out a recurrence cooldown or a snooze that lies in the future.
    pub open spec fn not_current(self, now: i64) -> bool {
        (self.recur_next matches Some(t) && now < t) || (self.snooze_until matches Some(t) && now
            < t)
    }

    /// Completing: the dot goes; a recurring task moves its next occurrence to
    /// the anchor after `now`, any other task records `now` as its completion.
    pub open spec fn completed(self, now: i64) -> TaskModel {
        match self.recur_interval_days {
            Some(d) => TaskModel { dot: false, recur_next: Some(anchor_after(now, d)), ..self },
            None => TaskModel { dot: false, completed_at: Some(now), ..self },
        }
    }

    /// Snoozing for one second after `now`, held at the largest instant. The
    /// task stops being current, so its dot goes.
    pub open spec fn snoozed_second(self, now: i64) -> TaskModel {
        TaskModel {
            dot: false,
            snooze_until: Some(if now == i64::MAX { now } else { (now + 1) as i64 }),
            ..self
        }
    }

    /// Snoozing until the next anchor after `now`. The task stops being
    /// current, so its dot goes.
    pub open spec fn snoozed_tomorrow(self, now: i64) -> TaskModel {
        TaskModel { dot: false, snooze_until: Some(anchor_after(now, 1)), ..self }
    }
}

/// The midnight that starts the day of `now`.
pub open spec fn day_start(now: int) -> int {
    now - now % (SECS_PER_DAY as int)
}

/// The first 05:00 strictly after `now`, then `days - 1` days further.
pub open spec fn next_anchor(now: int, days: int) -> int {
    let today = day_start(now) + ANCHOR_SECS;
    let first = if today <= now {
        today + SECS_PER_DAY
    } else {
        today
    };
    first + (days - 1) * SECS_PER_DAY
}

/// `next_anchor` as an instant, held at the largest one where it lies beyond.
pub open spec fn anchor_after(now: i64, days: u64) -> i64 {
    let t = next_anchor(now as int, days as int);
    if t > i64::MAX {
        i64::MAX
    } else {
        t as i64
    }
}

/// The next occurrence `interval` days out, anchored at 05:00: 05:00 today if
/// that is still to come, else 05:00 tomorrow, then `interval - 1` days more.
pub fn in_n_days_5am(now: i64, interval: u64) -> (r: i64)
    requires
        interval >= 1,
    ensures
        r == anchor_after(now, interval),
        r > now || now == i64::MAX,
{
    let shifted: i128 = now as i128 + DAY_ALIGNED_SHIFT;
    let rem: i128 = ((shifted as u128) % 86400) as i128;
    proof {
        let d = SECS_PER_DAY as int;
        lemma_fundamental_div_mod(now as int, d);
        let q = (now as int) / d;
        let r = (now as int) % d;
        assert(shifted as int == (q + 106751991167301) * d + r);
        lemma_fundamental_div_mod_converse_mod(shifted as int, d, q + 106751991167301, r);
    }
    let today: i128 = now as i128 - rem + 18000;
    let first: i128 = if today <= now as i128 {
        today + 86400
    } else {
        today
    };
    let extra: i128 = interval as i128 - 1;
    assert(extra * 86400 <= 86400 * 18446744073709551615) by (nonlinear_arith)
        requires
            0 <= extra <= 18446744073709551615,
    ;
    assert(extra * 86400 >= 0) by (nonlinear_arith)
        requires
            0 <= extra,
    ;
    let t: i128 = first + extra * 86400;
    if t > 9223372036854775807 {
        i64::MAX
    } else {
        t as i64
    }
}


/// Completing a daily task one minute before 05:00 moves its next occurrence
/// to 05:00 that same day; one minute after 05:00, to 05:00 the next day.
/// `day` counts days since 1970-01-01, and the instants involved must be
/// instants.
pub proof fn lemma_recurrence_anchor(t: TaskModel, day: int)
    requires
        t.recur_interval_days == Some(1u64),
        i64::MIN <= day * SECS_PER_DAY,
        (day + 1) * SECS_PER_DAY + ANCHOR_SECS <= i64::MAX,
    ensures
        t.completed((day * SECS_PER_DAY + ANCHOR_SECS - 60) as i64).recur_next == Some(
            (day * SECS_PER_DAY + ANCHOR_SECS) as i64,
        ),
        t.completed((day * SECS_PER_DAY + ANCHOR_SECS + 60) as i64).recur_next == Some(
            ((day + 1) * SECS_PER_DAY + ANCHOR_SECS) as i64,
        ),
{
    let d = SECS_PER_DAY as int;
    let before = day * d + ANCHOR_SECS - 60;
    let after = day * d + ANCHOR_SECS + 60;
    lemma_fundamental_div_mod_converse_mod(before, d, day, ANCHOR_SECS - 60);
    lemma_fundamental_div_mod_converse_mod(after, d, day, ANCHOR_SECS + 60);
    assert(day * d == d * day) by (nonlinear_arith);
    assert((day + 1) * d == day * d + d) by (nonlinear_arith);
}

/// Relies on chrono's `Local::now`: the local wall-clock time, as seconds
/// since 1970-01-01 00:00:00 of that same clock. Nothing is known of the
/// value.
#[verifier::external_body]
pub(crate) fn local_now() -> i64 {
    chrono::Local::now().naive_local().and_utc().timestamp()
}

/// Relies on uuid's `Uuid::new_v4`: a random identifier, as its 128 bits.
/// Nothing is known of the value.
#[verifier::external_body]
fn random_uuid() -> u128 {
    uuid::Uuid::new_v4().as_u128()
}

/// The text of an id, as uuid writes it.
pub uninterp spec fn uuid_text(id: u128) -> Seq<char>;

/// The text of an instant, as chrono writes a date and time; `None` where
/// chrono cannot represent the instant.
pub uninterp spec fn stamp_text(secs: i64) -> Option<Seq<char>>;

/// Relies on uuid's `Uuid::from_u128` and its `Display`: the hyphenated text
/// of the id, which depends on the id alone.
#[verifier::external_body]
fn uuid_string(id: u128) -> (r: String)
    ensures
        r@ == uuid_text(id),
{
    uuid::Uuid::from_u128(id).to_string()
}

/// Relies on chrono's `DateTime::from_timestamp` and the `Display` of
/// `NaiveDateTime`: the date and time of the instant, where chrono can
/// represent it.
#[verifier::external_body]
fn stamp_string(secs: i64) -> (r: Option<String>)
    ensures
        r matches Some(s) ==> stamp_text(secs) == Some(s@),
        r is None ==> stamp_text(secs) is None,
{
    match chrono::DateTime::from_timestamp(secs, 0) {
        Some(d) => Some(d.naive_utc().to_string()),
        None => None,
    }
}

/// The decimal digit for `d`.
pub open spec fn digit_char(d: int) -> char {
    if d == 0 {
        '0'
    } else if d == 1 {
        '1'
    } else if d == 2 {
        '2'
    } else if d == 3 {
        '3'
    } else if d == 4 {
        '4'
    } else if d == 5 {
        '5'
    } else if d == 6 {
        '6'
    } else if d == 7 {
        '7'
    } else if d == 8 {
        '8'
    } else {
        '9'
    }
}

/// The decimal text of `n`, without leading zeros.
pub open spec fn decimal_text(n: nat) -> Seq<char>
    decreases n,
{
    if n < 10 {
        seq![digit_char(n as int)]
    } else {
        decimal_text(n / 10).push(digit_char((n % 10) as int))
    }
}

/// Relies on std's `ToString` for `u64`: its decimal text.
#[verifier::external_body]
pub(crate) fn u64_string(n: u64) -> (r: String)
    ensures
        r@ == decimal_text(n as nat),
{
    n.to_string()
}

/// An optional instant in the detail text.
pub open spec fn stamp_field(t: Option<i64>) -> Seq<char> {
    match t {
        None => "None"@,
        Some(secs) => match stamp_text(secs) {
            Some(text) => text,
            None => "out of range"@,
        },
    }
}

/// The recurrence interval in the detail text.
pub open spec fn interval_field(d: Option<u64>) -> Seq<char> {
    match d {
        None => "None"@,
        Some(n) => decimal_text(n as nat),
    }
}

/// The diagnostic text of a task: its id and raw state, one field a line.
pub open spec fn detail_text(m: TaskModel) -> Seq<char> {
    "uuid: "@ + uuid_text(m.id) + "\n"@ + "completed: "@ + stamp_field(m.completed_at) + "\n"@
        + "recur_next: "@ + stamp_field(m.recur_next) + "\n"@ + "recur_interval_days: "@
        + interval_field(m.recur_interval_days) + "\n"@ + "snooze_until: "@ + stamp_field(
        m.snooze_until,
    ) + "\n"@
}

/// The list line of a task: a completion or dot marker, a recurrence marker,
/// then the description.
pub open spec fn line_text(m: TaskModel) -> Seq<char> {
    (if m.is_complete() {
        "D "@
    } else if m.dot {
        "- "@
    } else {
        "  "@
    }) + (if m.is_recurring() {
        "R "@
    } else {
        "  "@
    }) + m.description
}

fn append_stamp_field(out: &mut String, t: Option<i64>)
    ensures
        final(out)@ == old(out)@ + stamp_field(t),
{
    match t {
        None => out.append("None"),
        Some(secs) => match stamp_string(secs) {
            Some(text) => out.append(text.as_str()),
            None => out.append("out of range"),
        },
    }
}

/// A unit of work. Its id never changes; every other field is state.
pub struct Task {
    description: String,
    dot: bool,
    uuid: u128,
    completed: Option<i64>,
    recur_next: Option<i64>,
    recur_interval_days: Option<u64>,
    snooze_until: Option<i64>,
}

impl View for Task {
    type V = TaskModel;

    closed spec fn view(&self) -> TaskModel {
        TaskModel {
            id: self.uuid,
            description: self.description@,
            dot: self.dot,
            completed_at: self.completed,
            recur_interval_days: self.recur_interval_days,
            recur_next: self.recur_next,
            snooze_until: self.snooze_until,
        }
    }
}

impl Task {
    /// A recurrence interval, where there is one, is at least a day.
    #[verifier::type_invariant]
    spec fn inv(self) -> bool {
        self.recur_interval_days matches Some(d) ==> d >= 1
    }

    /// A new task with a fresh random id.
    pub fn new(description: &str) -> (r: Task)
        ensures
            r@ == TaskModel::fresh(r@.id, description@),
    {
        Task::with_uuid(description, random_uuid())
    }

    /// A new task with the given id.
    pub fn with_uuid(description: &str, uuid: u128) -> (r: Task)
        ensures
            r@ == TaskModel::fresh(uuid, description@),
    {
        Task {
            description: description.to_owned(),
            dot: false,
            uuid,
            completed: None,
            recur_next: None,
            recur_interval_days: None,
            snooze_until: None,
        }
    }

    /// A task with every field given, as when it is read back from storage.
    /// `None` where the recurrence interval is zero days.
    pub fn from_parts(
        uuid: u128,
        description: &str,
        dot: bool,
        completed: Option<i64>,
        recur_next: Option<i64>,
        recur_interval_days: Option<u64>,
        snooze_until: Option<i64>,
    ) -> (r: Option<Task>)
        ensures
            r is Some <== (recur_interval_days != Some(0u64)),
            r is Some ==> (recur_interval_days != Some(0u64)),
            r matches Some(t) ==> (t@ == TaskModel {
                id: uuid,
                description: description@,
                dot,
                completed_at: completed,
                recur_interval_days,
                recur_next,
                snooze_until,
            }),
    {
        if let Some(0) = recur_interval_days {
            return None;
        }
        Some(
            Task {
                description: description.to_owned(),
                dot,
                uuid,
                completed,
                recur_next,
                recur_interval_days,
                snooze_until,
            },
        )
    }

    /// A copy with the same fields.
    pub fn duplicate(&self) -> (r: Task)
        ensures
            r@ == self@,
    {
        proof {
            use_type_invariant(self);
        }
        Task {
            description: self.description.clone(),
            dot: self.dot,
            uuid: self.uuid,
            completed: self.completed,
            recur_next: self.recur_next,
            recur_interval_days: self.recur_interval_days,
            snooze_until: self.snooze_until,
        }
    }

    /// The task's id and raw state, one field a line, for diagnostics.
    pub fn detail_string(&self) -> (r: String)
        ensures
            r@ == detail_text(self@),
    {
        let mut output = String::new();
        output.append("uuid: ");
        output.append(uuid_string(self.uuid).as_str());
        output.append("\n");
        output.append("completed: ");
        append_stamp_field(&mut output, self.completed);
        output.append("\n");
        output.append("recur_next: ");
        append_stamp_field(&mut output, self.recur_next);
        output.append("\n");
        output.append("recur_interval_days: ");
        match self.recur_interval_days {
            Some(days) => output.append(u64_string(days).as_str()),
            None => output.append("None"),
        }
        output.append("\n");
        output.append("snooze_until: ");
        append_stamp_field(&mut output, self.snooze_until);
        output.append("\n");
        assert(output@ =~= detail_text(self@));
        output
    }

    /// The task as a line of the list: a completion or dot marker, a
    /// recurrence marker, then the description.
    pub fn display_line(&self) -> (r: String)
        ensures
            r@ == line_text(self@),
    {
        let mut output = String::new();
        if self.completed.is_some() {
            output.append("D ");
        } else if self.dot {
            output.append("- ");
        } else {
            output.append("  ");
        }
        if self.recur_interval_days.is_some() {
            output.append("R ");
        } else {
            output.append("  ");
        }
        output.append(self.description.as_str());
        assert(output@ =~= line_text(self@));
        output
    }

    /// Sets the task to recur every day.
    pub fn set_recur_daily(&mut self)
        ensures
            final(self)@ == (TaskModel { recur_interval_days: Some(1u64), ..old(self)@ }),
    {
        proof {
            use_type_invariant(&*self);
        }
        self.recur_interval_days = Some(1);
    }

    /// Moves the next occurrence of a recurring task to the anchor after `now`.
    fn recur_next(&mut self, now: i64)
        ensures
            final(self)@ == (match old(self)@.recur_interval_days {
                Some(d) => TaskModel { recur_next: Some(anchor_after(now, d)), ..old(self)@ },
                None => old(self)@,
            }),
    {
        proof {
            use_type_invariant(&*self);
        }
        if let Some(interval) = self.recur_interval_days {
            self.recur_next = Some(in_n_days_5am(now, interval));
        }
    }

    pub fn is_recurring(&self) -> (r: bool)
        ensures
            r == self@.is_recurring(),
    {
        self.recur_interval_days.is_some()
    }

    /// Ends the recurrence, and with it any pending next occurrence.
    pub fn clear_recur(&mut self)
        ensures
            final(self)@ == (TaskModel {
                recur_next: None,
                recur_interval_days: None,
                ..old(self)@
            }),
    {
        proof {
            use_type_invariant(&*self);
        }
        self.recur_next = None;
        self.recur_interval_days = None;
    }

    /// Snoozes the task until the next 05:00 after `now`, taking its dot off.
    pub fn snooze_tomorrow_at(&mut self, now: i64)
        ensures
            final(self)@ == old(self)@.snoozed_tomorrow(now),
    {
        proof {
            use_type_invariant(&*self);
        }
        self.dot = false;
        self.snooze_until = Some(in_n_days_5am(now, 1));
    }

    /// Snoozes the task until the next 05:00.
    pub fn snooze_tomorrow(&mut self)
        ensures
            exists|now: i64| final(self)@ == old(self)@.snoozed_tomorrow(now),
    {
        self.snooze_tomorrow_at(local_now());
    }

    /// Snoozes the task for one second after `now`, taking its dot off.
    pub fn snooze_1s_at(&mut self, now: i64)
        ensures
            final(self)@ == old(self)@.snoozed_second(now),
    {
        proof {
            use_type_invariant(&*self);
        }
        let until: i64 = if now == i64::MAX {
            now
        } else {
            now + 1
        };
        self.dot = false;
        self.snooze_until = Some(until);
    }

    /// Snoozes the task for one second.
    pub fn snooze_1s(&mut self)
        ensures
            exists|now: i64| final(self)@ == old(self)@.snoozed_second(now),
    {
        self.snooze_1s_at(local_now());
    }

    /// Whether the snooze is set and its instant is `now` or earlier.
    pub fn snooze_expiring_at(&self, now: i64) -> (r: bool)
        ensures
            r == self@.snooze_expiring(now),
    {
        match self.snooze_until {
            Some(until) => now >= until,
            None => false,
        }
    }

    /// Whether the snooze is set and its instant has passed.
    pub fn snooze_expiring(&self) -> (r: bool)
        ensures
            exists|now: i64| r == self@.snooze_expiring(now),
    {
        self.snooze_expiring_at(local_now())
    }

    pub fn unsnooze(&mut self)
        ensures
            final(self)@ == (TaskModel { snooze_until: None, ..old(self)@ }),
    {
        proof {
            use_type_invariant(&*self);
        }
        self.snooze_until = None;
    }

    /// Whether at `now` the task waits out a recurrence cooldown or a snooze.
    pub fn not_current_at(&self, now: i64) -> (r: bool)
        ensures
            r == self@.not_current(now),
    {
        let cooling = match self.recur_next {
            Some(next) => now < next,
            None => false,
        };
        let snoozed = match self.snooze_until {
            Some(until) => now < until,
            None => false,
        };
        cooling || snoozed
    }

    /// Whether the task now waits out a recurrence cooldown or a snooze.
    pub fn not_current(&self) -> (r: bool)
        ensures
            exists|now: i64| r == self@.not_current(now),
    {
        self.not_current_at(local_now())
    }

    pub fn description(&self) -> (r: &str)
        ensures
            r@ == self@.description,
    {
        self.description.as_str()
    }

    pub fn dot(&self) -> (r: bool)
        ensures
            r == self@.dot,
    {
        self.dot
    }

    pub fn uuid(&self) -> (r: u128)
        ensures
            r == self@.id,
    {
        self.uuid
    }

    pub fn completed(&self) -> (r: Option<i64>)
        ensures
            r == self@.completed_at,
    {
        self.completed
    }

    pub fn next_occurrence(&self) -> (r: Option<i64>)
        ensures
            r == self@.recur_next,
    {
        self.recur_next
    }

    pub fn recur_interval_days(&self) -> (r: Option<u64>)
        ensures
            r == self@.recur_interval_days,
    {
        self.recur_interval_days
    }

    pub fn snooze_until(&self) -> (r: Option<i64>)
        ensures
            r == self@.snooze_until,
    {
        self.snooze_until
    }

    pub fn update_description(&mut self, description: &str)
        ensures
            final(self)@ == (TaskModel { description: description@, ..old(self)@ }),
    {
        proof {
            use_type_invariant(&*self);
        }
        self.description = description.to_owned();
    }

    pub fn toggle_dot(&mut self)
        ensures
            final(self)@ == (TaskModel { dot: !old(self)@.dot, ..old(self)@ }),
    {
        proof {
            use_type_invariant(&*self);
        }
        self.dot = !self.dot;
    }

    pub fn remove_dot(&mut self)
        ensures
            final(self)@ == (TaskModel { dot: false, ..old(self)@ }),
    {
        proof {
            use_type_invariant(&*self);
        }
        self.dot = false;
    }

    /// Completes the task at `now`.
    pub fn complete_at(&mut self, now: i64)
        ensures
            final(self)@ == old(self)@.completed(now),
    {
        proof {
            use_type_invariant(&*self);
        }
        self.dot = false;
        if self.recur_interval_days.is_some() {
            self.recur_next(now);
        } else {
            self.completed = Some(now);
        }
    }

    /// Completes the task now.
    pub fn complete(&mut self)
        ensures
            exists|now: i64| final(self)@ == old(self)@.completed(now),
    {
        self.complete_at(local_now());
    }

    pub fn is_complete(&self) -> (r: bool)
        ensures
            r == self@.is_complete(),
    {
        self.completed.is_some()
    }
}

} // verus!
