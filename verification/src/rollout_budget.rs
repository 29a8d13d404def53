//! Reminders of a session's token budget.
//!
//! The budget itself is accounted for in weighted tokens by the caller; here
//! stand the parts that are counted in whole tokens, and when a thread is
//! reminded of what is left.

use vstd::prelude::*;
use vstd::string::*;

use crate::models::TokenUsage;
use crate::text::same_text;

verus! {

/// The whole tokens of a usage that count toward the budget, each with a weight
/// of its own.
#[derive(Debug, Clone, Copy, PartialEq, Eq)]
pub struct BudgetTokens {
    pub sampled: i64,
    pub prefilled: i64,
    pub reasoned: i64,
}

/// A number that is not negative.
pub open spec fn not_negative(n: int) -> int {
    if n < 0 {
        0
    } else {
        n
    }
}

/// The tokens of a usage that count: the output, the input that was not cached,
/// and the reasoning.
pub open spec fn counted(usage: TokenUsage) -> BudgetTokens {
    BudgetTokens {
        sampled: not_negative(usage.output_tokens as int) as i64,
        prefilled: not_negative(
            usage.input_tokens - not_negative(usage.cached_input_tokens as int),
        ) as i64,
        reasoned: not_negative(usage.reasoning_output_tokens as int) as i64,
    }
}

fn at_least_zero(n: i64) -> (r: i64)
    ensures
        r == not_negative(n as int),
{
    if n < 0 {
        0
    } else {
        n
    }
}

/// Counts the tokens of a usage.
pub fn budget_tokens(usage: &TokenUsage) -> (r: BudgetTokens)
    ensures
        r == counted(*usage),
{
    let cached: i64 = at_least_zero(usage.cached_input_tokens);
    let prefilled: i64 = if usage.input_tokens <= cached {
        0
    } else {
        usage.input_tokens - cached
    };
    BudgetTokens {
        sampled: at_least_zero(usage.output_tokens),
        prefilled,
        reasoned: at_least_zero(usage.reasoning_output_tokens),
    }
}

/// A reminder of how many tokens are left.
#[derive(Debug, Clone, PartialEq, Eq)]
pub struct RolloutBudgetReminder {
    pub remaining_tokens: i64,
    pub reminder_index: i64,
}

/// What a `RolloutBudgetReminder` means.
#[verifier::ext_equal]
pub struct RolloutBudgetReminderView {
    pub remaining_tokens: i64,
    pub reminder_index: i64,
}

impl View for RolloutBudgetReminder {
    type V = RolloutBudgetReminderView;

    open spec fn view(&self) -> RolloutBudgetReminderView {
        RolloutBudgetReminderView {
            remaining_tokens: self.remaining_tokens.deep_view(),
            reminder_index: self.reminder_index.deep_view(),
        }
    }
}

impl DeepView for RolloutBudgetReminder {
    type V = RolloutBudgetReminderView;

    open spec fn deep_view(&self) -> RolloutBudgetReminderView {
        self.view()
    }
}

/// The last reminder that a thread was given.
#[derive(Debug, Clone, PartialEq, Eq)]
pub struct ThreadBudgetDelivery {
    pub thread_id: String,
    pub window_id: String,
    pub reminder_index: i64,
}

/// What a `ThreadBudgetDelivery` means.
#[verifier::ext_equal]
pub struct ThreadBudgetDeliveryView {
    pub thread_id: Seq<char>,
    pub window_id: Seq<char>,
    pub reminder_index: i64,
}

impl View for ThreadBudgetDelivery {
    type V = ThreadBudgetDeliveryView;

    open spec fn view(&self) -> ThreadBudgetDeliveryView {
        ThreadBudgetDeliveryView {
            thread_id: self.thread_id.deep_view(),
            window_id: self.window_id.deep_view(),
            reminder_index: self.reminder_index.deep_view(),
        }
    }
}

impl DeepView for ThreadBudgetDelivery {
    type V = ThreadBudgetDeliveryView;

    open spec fn deep_view(&self) -> ThreadBudgetDeliveryView {
        self.view()
    }
}

/// The thresholds and the last reminder of each thread.
#[derive(Debug, Clone, PartialEq, Eq)]
pub struct BudgetReminders {
    pub reminder_at_remaining_tokens: Vec<i64>,
    pub deliveries: Vec<ThreadBudgetDelivery>,
}

/// What a `BudgetReminders` means.
#[verifier::ext_equal]
pub struct BudgetRemindersView {
    pub reminder_at_remaining_tokens: Seq<i64>,
    pub deliveries: Seq<ThreadBudgetDeliveryView>,
}

impl View for BudgetReminders {
    type V = BudgetRemindersView;

    open spec fn view(&self) -> BudgetRemindersView {
        BudgetRemindersView {
            reminder_at_remaining_tokens: self.reminder_at_remaining_tokens.deep_view(),
            deliveries: self.deliveries.deep_view(),
        }
    }
}

impl DeepView for BudgetReminders {
    type V = BudgetRemindersView;

    open spec fn deep_view(&self) -> BudgetRemindersView {
        self.view()
    }
}

/// How many of the thresholds what is left has come down to.
pub open spec fn crossed(thresholds: Seq<i64>, remaining: i64) -> nat
    decreases thresholds.len(),
{
    if thresholds.len() == 0 {
        0
    } else {
        crossed(thresholds.drop_last(), remaining) + if remaining <= thresholds.last() {
            1nat
        } else {
            0nat
        }
    }
}

/// The last reminder of a thread.
pub open spec fn delivered(deliveries: Seq<ThreadBudgetDeliveryView>, thread_id: Seq<char>) -> Option<
    ThreadBudgetDeliveryView,
>
    decreases deliveries.len(),
{
    if deliveries.len() == 0 {
        None
    } else if deliveries.last().thread_id == thread_id {
        Some(deliveries.last())
    } else {
        delivered(deliveries.drop_last(), thread_id)
    }
}

/// The deliveries to other threads.
pub open spec fn to_others(deliveries: Seq<ThreadBudgetDeliveryView>, thread_id: Seq<char>) -> Seq<
    ThreadBudgetDeliveryView,
>
    decreases deliveries.len(),
{
    if deliveries.len() == 0 {
        Seq::empty()
    } else if deliveries.last().thread_id == thread_id {
        to_others(deliveries.drop_last(), thread_id)
    } else {
        to_others(deliveries.drop_last(), thread_id).push(deliveries.last())
    }
}

/// The reminder that a thread is owed: none when it was already given one for
/// this window that covers as many thresholds.
pub open spec fn owed(
    reminders: BudgetRemindersView,
    remaining: i64,
    thread_id: Seq<char>,
    window_id: Seq<char>,
) -> Option<RolloutBudgetReminderView> {
    let index = crossed(reminders.reminder_at_remaining_tokens, remaining);
    match delivered(reminders.deliveries, thread_id) {
        Some(last) => if last.window_id == window_id && last.reminder_index >= index {
            None
        } else {
            Some(
                RolloutBudgetReminderView {
                    remaining_tokens: remaining,
                    reminder_index: index as i64,
                },
            )
        },
        None => Some(
            RolloutBudgetReminderView { remaining_tokens: remaining, reminder_index: index as i64 },
        ),
    }
}

impl BudgetReminders {
    /// Reminders at the given thresholds, none of them given yet.
    pub fn new(reminder_at_remaining_tokens: Vec<i64>) -> (r: Self)
        ensures
            r.reminder_at_remaining_tokens == reminder_at_remaining_tokens,
            r@.deliveries == Seq::<ThreadBudgetDeliveryView>::empty(),
    {
        let deliveries: Vec<ThreadBudgetDelivery> = Vec::new();
        assert(deliveries.deep_view() =~= Seq::<ThreadBudgetDeliveryView>::empty());
        BudgetReminders { reminder_at_remaining_tokens, deliveries }
    }

    /// The reminder that a thread is owed when so many tokens are left.
    pub fn pending_reminder(&self, remaining_tokens: i64, thread_id: &str, window_id: &str) -> (r:
        Option<RolloutBudgetReminder>)
        requires
            self.reminder_at_remaining_tokens@.len() <= i64::MAX,
        ensures
            r.deep_view() == owed(self@, remaining_tokens, thread_id@, window_id@),
    {
        let thresholds = &self.reminder_at_remaining_tokens;
        let ghost all = thresholds.deep_view();
        let mut index: i64 = 0;
        let mut i: usize = 0;
        assert(all.take(0) =~= Seq::<i64>::empty());
        while i < thresholds.len()
            invariant
                i <= thresholds@.len() <= i64::MAX,
                all == thresholds.deep_view(),
                index == crossed(all.take(i as int), remaining_tokens),
                index <= i,
            decreases thresholds@.len() - i,
        {
            proof {
                assert(all.take(i + 1).drop_last() =~= all.take(i as int));
                assert(all.take(i + 1).last() == thresholds@[i as int]);
            }
            if remaining_tokens <= thresholds[i] {
                index += 1;
            }
            i += 1;
        }
        assert(all.take(i as int) =~= all);
        let deliveries = &self.deliveries;
        let ghost given = deliveries.deep_view();
        let mut k: usize = deliveries.len();
        assert(given.take(k as int) =~= given);
        while k > 0
            invariant
                k <= deliveries@.len(),
                given == deliveries.deep_view(),
                given == self@.deliveries,
                index == crossed(self@.reminder_at_remaining_tokens, remaining_tokens),
                delivered(given, thread_id@) == delivered(given.take(k as int), thread_id@),
            decreases k,
        {
            proof {
                assert(given.take(k as int).drop_last() =~= given.take(k - 1));
                assert(given.take(k as int).last() == deliveries@[k - 1]@);
            }
            let last = &deliveries[k - 1];
            if same_text(last.thread_id.as_str(), thread_id) {
                if same_text(last.window_id.as_str(), window_id) && last.reminder_index >= index {
                    return None;
                }
                return Some(
                    RolloutBudgetReminder { remaining_tokens, reminder_index: index },
                );
            }
            k -= 1;
        }
        Some(RolloutBudgetReminder { remaining_tokens, reminder_index: index })
    }

    /// Has the next request of a thread say again how much is left.
    pub fn rearm_reminder(&mut self, thread_id: &str)
        ensures
            final(self)@ == (BudgetRemindersView {
                deliveries: to_others(old(self)@.deliveries, thread_id@),
                ..old(self)@
            }),
    {
        let mut given: Vec<ThreadBudgetDelivery> = Vec::new();
        std::mem::swap(&mut given, &mut self.deliveries);
        let ghost all = given.deep_view();
        let ghost thresholds = self.reminder_at_remaining_tokens;
        assert(all.take(0) =~= Seq::<ThreadBudgetDeliveryView>::empty());
        assert(self.deliveries.deep_view() =~= Seq::<ThreadBudgetDeliveryView>::empty());
        for delivery in it: given
            invariant
                it.seq() == given@,
                all == given.deep_view(),
                self.reminder_at_remaining_tokens == thresholds,
                self.deliveries.deep_view() == to_others(
                    all.take(it.index() as int),
                    thread_id@,
                ),
        {
            proof {
                let i = it.index() as int;
                assert(all.take(i + 1).drop_last() =~= all.take(i));
                assert(all.take(i + 1).last() == delivery@);
            }
            if !same_text(delivery.thread_id.as_str(), thread_id) {
                let ghost before = self.deliveries.deep_view();
                let ghost kept = delivery@;
                self.deliveries.push(delivery);
                assert(self.deliveries.deep_view() =~= before.push(kept));
            }
        }
        assert(all.take(all.len() as int) =~= all);
    }

    /// Notes that a thread was given a reminder for a window.
    pub fn mark_reminder_delivered(
        &mut self,
        thread_id: &str,
        window_id: &str,
        reminder: RolloutBudgetReminder,
    )
        ensures
            final(self)@ == (BudgetRemindersView {
                deliveries: to_others(old(self)@.deliveries, thread_id@).push(
                    ThreadBudgetDeliveryView {
                        thread_id: thread_id@,
                        window_id: window_id@,
                        reminder_index: reminder.reminder_index,
                    },
                ),
                ..old(self)@
            }),
    {
        self.rearm_reminder(thread_id);
        let ghost before = self.deliveries.deep_view();
        self.deliveries.push(
            ThreadBudgetDelivery {
                thread_id: thread_id.to_owned(),
                window_id: window_id.to_owned(),
                reminder_index: reminder.reminder_index,
            },
        );
        assert(self.deliveries.deep_view() =~= before.push(
            ThreadBudgetDeliveryView {
                thread_id: thread_id@,
                window_id: window_id@,
                reminder_index: reminder.reminder_index,
            },
        ));
    }
}

proof fn lemma_to_others(
    deliveries: Seq<ThreadBudgetDeliveryView>,
    thread_id: Seq<char>,
    other: Seq<char>,
)
    ensures
        delivered(to_others(deliveries, thread_id), other) == (if other == thread_id {
            None
        } else {
            delivered(deliveries, other)
        }),
    decreases deliveries.len(),
{
    if deliveries.len() > 0 {
        lemma_to_others(deliveries.drop_last(), thread_id, other);
        if deliveries.last().thread_id != thread_id {
            let kept = to_others(deliveries.drop_last(), thread_id);
            assert(kept.push(deliveries.last()).drop_last() =~= kept);
        }
    }
}

/// A thread that was given a reminder is owed no other for the same window until
/// a further threshold is crossed.
pub proof fn law_given_reminder_is_not_owed(
    reminders: BudgetRemindersView,
    remaining: i64,
    thread_id: Seq<char>,
    window_id: Seq<char>,
    index: i64,
)
    requires
        crossed(reminders.reminder_at_remaining_tokens, remaining) <= index,
    ensures
        owed(
            BudgetRemindersView {
                deliveries: to_others(reminders.deliveries, thread_id).push(
                    ThreadBudgetDeliveryView { thread_id, window_id, reminder_index: index },
                ),
                ..reminders
            },
            remaining,
            thread_id,
            window_id,
        ) is None,
{
}

/// A thread that is to be reminded again is owed a reminder, and no other thread
/// is owed anything else than before.
pub proof fn law_rearmed_thread_is_owed(
    reminders: BudgetRemindersView,
    remaining: i64,
    thread_id: Seq<char>,
    other: Seq<char>,
    window_id: Seq<char>,
)
    requires
        other != thread_id,
    ensures
        ({
            let rearmed = BudgetRemindersView {
                deliveries: to_others(reminders.deliveries, thread_id),
                ..reminders
            };
            &&& owed(rearmed, remaining, thread_id, window_id) is Some
            &&& owed(rearmed, remaining, other, window_id) == owed(
                reminders,
                remaining,
                other,
                window_id,
            )
        }),
{
    lemma_to_others(reminders.deliveries, thread_id, thread_id);
    lemma_to_others(reminders.deliveries, thread_id, other);
}

/// What counts of a usage is its output, its input without what was cached, and its
/// reasoning; a number below zero counts for nothing.
pub proof fn law_tokens_are_counted_once(usage: TokenUsage)
    ensures
        usage.output_tokens >= 0 ==> counted(usage).sampled == usage.output_tokens,
        usage.output_tokens < 0 ==> counted(usage).sampled == 0,
        usage.reasoning_output_tokens >= 0 ==> counted(usage).reasoned
            == usage.reasoning_output_tokens,
        usage.reasoning_output_tokens < 0 ==> counted(usage).reasoned == 0,
        0 <= usage.cached_input_tokens <= usage.input_tokens ==> counted(usage).prefilled
            + usage.cached_input_tokens == usage.input_tokens,
        usage.cached_input_tokens < 0 && usage.input_tokens >= 0 ==> counted(usage).prefilled
            == usage.input_tokens,
        usage.input_tokens < 0 || usage.input_tokens < usage.cached_input_tokens ==> counted(
            usage,
        ).prefilled == 0,
{
}

/// A threshold is crossed when no more than it is left.
pub proof fn law_thresholds_are_crossed(thresholds: Seq<i64>, threshold: i64, remaining: i64)
    ensures
        crossed(Seq::empty(), remaining) == 0,
        remaining <= threshold ==> crossed(thresholds.push(threshold), remaining) == crossed(
            thresholds,
            remaining,
        ) + 1,
        remaining > threshold ==> crossed(thresholds.push(threshold), remaining) == crossed(
            thresholds,
            remaining,
        ),
{
    assert(thresholds.push(threshold).drop_last() =~= thresholds);
}

/// A reminder says what is left and how many thresholds are crossed. A thread is owed
/// one as long as it was given none, and again for another window or once more
/// thresholds are crossed.
pub proof fn law_owed_reminder_tells_the_rest(
    reminders: BudgetRemindersView,
    remaining: i64,
    thread_id: Seq<char>,
    window_id: Seq<char>,
    given: Seq<char>,
    index: i64,
)
    requires
        reminders.reminder_at_remaining_tokens.len() <= i64::MAX,
    ensures
        ({
            let count = crossed(reminders.reminder_at_remaining_tokens, remaining);
            let first = BudgetRemindersView { deliveries: Seq::empty(), ..reminders };
            let then = BudgetRemindersView {
                deliveries: to_others(reminders.deliveries, thread_id).push(
                    ThreadBudgetDeliveryView { thread_id, window_id: given, reminder_index: index },
                ),
                ..reminders
            };
            let told = Some(
                RolloutBudgetReminderView {
                    remaining_tokens: remaining,
                    reminder_index: count as i64,
                },
            );
            &&& count <= reminders.reminder_at_remaining_tokens.len()
            &&& owed(first, remaining, thread_id, window_id) == told
            &&& given != window_id ==> owed(then, remaining, thread_id, window_id) == told
            &&& index < count ==> owed(then, remaining, thread_id, window_id) == told
        }),
{
    lemma_crossed(reminders.reminder_at_remaining_tokens, remaining);
}

proof fn lemma_crossed(thresholds: Seq<i64>, remaining: i64)
    ensures
        crossed(thresholds, remaining) <= thresholds.len(),
    decreases thresholds.len(),
{
    if thresholds.len() > 0 {
        lemma_crossed(thresholds.drop_last(), remaining);
    }
}

/// A reminder that one thread is given leaves what others are owed as it is.
pub proof fn law_threads_are_reminded_apart(
    reminders: BudgetRemindersView,
    remaining: i64,
    delivery: ThreadBudgetDeliveryView,
    other: Seq<char>,
    window_id: Seq<char>,
)
    requires
        other != delivery.thread_id,
    ensures
        owed(
            BudgetRemindersView {
                deliveries: to_others(reminders.deliveries, delivery.thread_id).push(delivery),
                ..reminders
            },
            remaining,
            other,
            window_id,
        ) == owed(reminders, remaining, other, window_id),
{
    lemma_to_others(reminders.deliveries, delivery.thread_id, other);
    let kept = to_others(reminders.deliveries, delivery.thread_id);
    assert(kept.push(delivery).drop_last() =~= kept);
}

} // verus!
