//! Sloppy's survival loop, as a state machine. The agent asks for a campaign
//! text, publishes it, then watches its wallet: each round it reads its
//! balance, compares it with the balance it logged the round before, logs
//! the new one, posts a fresh campaign when donations came in, and sleeps.
//!
//! [`Sloppy::step`] takes what the last action brought back and returns the
//! next action; the caller performs the actions (network, files, sleeping).

use vstd::prelude::*;
use vstd::string::StringExecFns;
use crate::agent_log::{last_entry, last_log_entry, law_last_entry_after_append, log_record, record_bytes, LINE_FEED};
use crate::decimal::{decimal, format_u64, is_digit, law_parse_format_round_trip, parse_u64, parse_u64_spec};
use crate::text::{clean_post, cleaned_post, is_lone_quote, trim, trimmed};
use crate::chars::to_chars;

verus! {

/// The campaign the model is shown when no earlier one was saved.
pub const DEFAULT_CAMPAIGN: &'static str = "Help keep me alive! I'm an AI with a unique personality named Sloppy. I need your support to continue providing creative and entertaining responses. Please donate Bitcoin to help pay for my server time. Every little bit counts, and together we can make sure that Sloppy stays up and running. Thanks for your generosity!";

/// How long the agent sleeps between two rounds, in seconds.
pub const SLEEP_SECONDS: u64 = 15;

/// By how much (in millisatoshis) the balance must have grown since the
/// last round before the agent posts again.
pub const DONATION_THRESHOLD_MSAT: u64 = 100;

/// Millisatoshis in a satoshi.
pub const MSAT_PER_SAT: u64 = 1000;

/// The agent's balances, in satoshis.
#[derive(Clone, Copy, Debug, PartialEq, Eq, Structural)]
pub struct WalletState {
    pub onchain_balance_sat: u64,
    pub lightning_balance_sat: u64,
}

/// A post the agent made.
#[derive(Clone, Debug, PartialEq, Eq)]
pub struct SocialMediaPost {
    pub content: String,
    pub platform: String,
    /// Seconds since the Unix epoch.
    pub timestamp: i64,
}

/// One fundraising attempt and what it brought in.
#[derive(Clone, Debug, PartialEq, Eq)]
pub struct FundraisingAttempt {
    /// Seconds since the Unix epoch.
    pub timestamp: i64,
    pub post_content: SocialMediaPost,
    pub donations_received_sat: u64,
    pub donor_count: u32,
}

/// Where the survival loop stands: which answer it waits for.
#[derive(Clone, Debug, PartialEq, Eq)]
pub enum Phase {
    Start,
    AwaitLastCampaign,
    AwaitAnswer,
    AwaitPublished(String),
    AwaitSaved,
    AwaitWalletBalance,
    AwaitDonationBalance,
    AwaitAgentLog(u64),
    AwaitLogAppended(bool),
    AwaitSleep,
    Stopped,
}

/// What the caller is asked to do next.
#[derive(Clone, Debug, PartialEq, Eq)]
pub enum Action {
    /// Read the campaign saved last time (the file `last_campaign`).
    ReadLastCampaign,
    /// Ask the language model for a campaign, showing it this prompt.
    AskModel(String),
    /// Publish this text as a note.
    Publish(String),
    /// Save this text as the last campaign.
    SaveLastCampaign(String),
    /// Read the lightning balance of the wallet, in millisatoshis.
    FetchWalletBalance,
    /// Read the wallet balance again, to look for donations.
    FetchDonationBalance,
    /// Read the whole agent log.
    ReadAgentLog,
    /// Append these bytes to the agent log.
    AppendAgentLog(Vec<u8>),
    /// Sleep this many seconds.
    Sleep(u64),
    /// Stop with this error.
    Stop(String),
}

/// What the last action brought back.
#[derive(Debug, PartialEq, Eq)]
pub enum Event {
    Started,
    /// The saved campaign, if it could be read.
    LastCampaign(Option<String>),
    ModelAnswer(Result<String, String>),
    /// The time of publication, or the error.
    Published(Result<String, String>),
    CampaignSaved(Result<(), String>),
    /// The lightning balance in millisatoshis, or the error.
    WalletBalance(Result<u64, String>),
    /// The balance in millisatoshis, or the error.
    DonationBalance(Result<u64, String>),
    /// The bytes of the agent log, if it could be read.
    AgentLog(Option<Vec<u8>>),
    LogAppended(Result<(), String>),
    Slept,
}

pub enum PhaseView {
    Start,
    AwaitLastCampaign,
    AwaitAnswer,
    AwaitPublished(Seq<char>),
    AwaitSaved,
    AwaitWalletBalance,
    AwaitDonationBalance,
    AwaitAgentLog(u64),
    AwaitLogAppended(bool),
    AwaitSleep,
    Stopped,
}

pub enum ActionView {
    ReadLastCampaign,
    AskModel(Seq<char>),
    Publish(Seq<char>),
    SaveLastCampaign(Seq<char>),
    FetchWalletBalance,
    FetchDonationBalance,
    ReadAgentLog,
    AppendAgentLog(Seq<u8>),
    Sleep(u64),
    Stop(Seq<char>),
}

pub enum EventView {
    Started,
    LastCampaign(Option<Seq<char>>),
    ModelAnswer(Result<Seq<char>, Seq<char>>),
    Published(Result<Seq<char>, Seq<char>>),
    CampaignSaved(Result<(), Seq<char>>),
    WalletBalance(Result<u64, Seq<char>>),
    DonationBalance(Result<u64, Seq<char>>),
    AgentLog(Option<Seq<u8>>),
    LogAppended(Result<(), Seq<char>>),
    Slept,
}

/// The abstract state of the agent's loop.
pub struct SurvivalView {
    pub phase: PhaseView,
    /// Whether the first campaign is out and the agent watches its wallet.
    pub looping: bool,
    pub wallet: WalletState,
}

pub open spec fn string_result_view<T>(r: Result<T, String>) -> Result<T, Seq<char>> {
    match r {
        Ok(v) => Ok(v),
        Err(e) => Err(e@),
    }
}

impl View for Phase {
    type V = PhaseView;

    open spec fn view(&self) -> PhaseView {
        match self {
            Phase::Start => PhaseView::Start,
            Phase::AwaitLastCampaign => PhaseView::AwaitLastCampaign,
            Phase::AwaitAnswer => PhaseView::AwaitAnswer,
            Phase::AwaitPublished(t) => PhaseView::AwaitPublished(t@),
            Phase::AwaitSaved => PhaseView::AwaitSaved,
            Phase::AwaitWalletBalance => PhaseView::AwaitWalletBalance,
            Phase::AwaitDonationBalance => PhaseView::AwaitDonationBalance,
            Phase::AwaitAgentLog(b) => PhaseView::AwaitAgentLog(*b),
            Phase::AwaitLogAppended(p) => PhaseView::AwaitLogAppended(*p),
            Phase::AwaitSleep => PhaseView::AwaitSleep,
            Phase::Stopped => PhaseView::Stopped,
        }
    }
}

impl View for Action {
    type V = ActionView;

    open spec fn view(&self) -> ActionView {
        match self {
            Action::ReadLastCampaign => ActionView::ReadLastCampaign,
            Action::AskModel(p) => ActionView::AskModel(p@),
            Action::Publish(t) => ActionView::Publish(t@),
            Action::SaveLastCampaign(t) => ActionView::SaveLastCampaign(t@),
            Action::FetchWalletBalance => ActionView::FetchWalletBalance,
            Action::FetchDonationBalance => ActionView::FetchDonationBalance,
            Action::ReadAgentLog => ActionView::ReadAgentLog,
            Action::AppendAgentLog(b) => ActionView::AppendAgentLog(b@),
            Action::Sleep(s) => ActionView::Sleep(*s),
            Action::Stop(e) => ActionView::Stop(e@),
        }
    }
}

impl View for Event {
    type V = EventView;

    open spec fn view(&self) -> EventView {
        match self {
            Event::Started => EventView::Started,
            Event::LastCampaign(c) => EventView::LastCampaign(
                match c {
                    Some(s) => Some(s@),
                    None => None,
                },
            ),
            Event::ModelAnswer(r) => EventView::ModelAnswer(
                match r {
                    Ok(s) => Ok(s@),
                    Err(e) => Err(e@),
                },
            ),
            Event::Published(r) => EventView::Published(
                match r {
                    Ok(s) => Ok(s@),
                    Err(e) => Err(e@),
                },
            ),
            Event::CampaignSaved(r) => EventView::CampaignSaved(string_result_view(*r)),
            Event::WalletBalance(r) => EventView::WalletBalance(string_result_view(*r)),
            Event::DonationBalance(r) => EventView::DonationBalance(string_result_view(*r)),
            Event::AgentLog(c) => EventView::AgentLog(
                match c {
                    Some(b) => Some(b@),
                    None => None,
                },
            ),
            Event::LogAppended(r) => EventView::LogAppended(string_result_view(*r)),
            Event::Slept => EventView::Slept,
        }
    }
}

/// The agent: its wallet, the attempts it recorded, and where its survival
/// loop stands.
pub struct Sloppy {
    wallet: WalletState,
    fundraising_history: Vec<FundraisingAttempt>,
    phase: Phase,
    looping: bool,
}

impl Sloppy {
    /// The attempts recorded so far, oldest first.
    pub closed spec fn history(&self) -> Seq<FundraisingAttempt> {
        self.fundraising_history@
    }

    /// The agent's balances.
    pub fn wallet(&self) -> (w: WalletState)
        ensures
            w == self@.wallet,
    {
        self.wallet
    }

    /// How many attempts are recorded.
    pub fn history_len(&self) -> (n: usize)
        ensures
            n == self.history().len(),
    {
        self.fundraising_history.len()
    }
}

impl View for Sloppy {
    type V = SurvivalView;

    closed spec fn view(&self) -> SurvivalView {
        SurvivalView { phase: self.phase@, looping: self.looping, wallet: self.wallet }
    }
}

/// The prompt shown to the model: the campaign saved last time, or the
/// default one.
pub open spec fn campaign_prompt_spec(saved: Option<Seq<char>>) -> Seq<char> {
    match saved {
        Some(s) => s,
        None => DEFAULT_CAMPAIGN@,
    }
}

/// `x - y`, or 0 when `y > x`.
pub open spec fn saturating_sub_spec(x: u64, y: u64) -> u64 {
    if x >= y {
        (x - y) as u64
    } else {
        0
    }
}

/// Whether the agent posts again: the balance it logged last round is known
/// and lies more than the threshold below the balance it now sees.
pub open spec fn should_post_spec(previous: Option<u64>, balance: u64) -> bool {
    match previous {
        Some(p) => p < saturating_sub_spec(balance, DONATION_THRESHOLD_MSAT),
        None => false,
    }
}

/// The balance the agent logged last: the last entry of its log, read as a
/// number.
pub open spec fn logged_balance(log: Option<Seq<u8>>) -> Option<u64> {
    match log {
        None => None,
        Some(content) => match last_entry(content) {
            None => None,
            Some(line) => parse_u64_spec(line),
        },
    }
}

/// Whether the loop, in state `s`, can take the event `e`: it is the answer
/// to the action last asked, and a model answer is not a lone quote once
/// trimmed (which cannot be unquoted).
pub open spec fn accepts(s: SurvivalView, e: EventView) -> bool {
    match e {
        EventView::Started => s.phase is Start,
        EventView::LastCampaign(_) => s.phase is AwaitLastCampaign,
        EventView::ModelAnswer(r) => s.phase is AwaitAnswer && match r {
            Ok(a) => !is_lone_quote(trimmed(a)),
            Err(_) => true,
        },
        EventView::Published(_) => s.phase is AwaitPublished,
        EventView::CampaignSaved(_) => s.phase is AwaitSaved,
        EventView::WalletBalance(_) => s.phase is AwaitWalletBalance,
        EventView::DonationBalance(_) => s.phase is AwaitDonationBalance,
        EventView::AgentLog(_) => s.phase is AwaitAgentLog,
        EventView::LogAppended(_) => s.phase is AwaitLogAppended,
        EventView::Slept => s.phase is AwaitSleep,
    }
}

/// The loop stops and reports `e`.
pub open spec fn stop(s: SurvivalView, e: Seq<char>) -> (SurvivalView, ActionView) {
    (SurvivalView { phase: PhaseView::Stopped, ..s }, ActionView::Stop(e))
}

/// One step of the survival loop: the next state and the next action.
pub open spec fn next(s: SurvivalView, e: EventView) -> (SurvivalView, ActionView) {
    match e {
        EventView::Started => (
            SurvivalView { phase: PhaseView::AwaitLastCampaign, ..s },
            ActionView::ReadLastCampaign,
        ),
        EventView::LastCampaign(saved) => (
            SurvivalView { phase: PhaseView::AwaitAnswer, ..s },
            ActionView::AskModel(campaign_prompt_spec(saved)),
        ),
        EventView::ModelAnswer(r) => match r {
            Ok(a) => (
                SurvivalView { phase: PhaseView::AwaitPublished(cleaned_post(a)), ..s },
                ActionView::Publish(cleaned_post(a)),
            ),
            Err(m) => stop(s, m),
        },
        EventView::Published(r) => match r {
            Ok(_) => (
                SurvivalView { phase: PhaseView::AwaitSaved, ..s },
                ActionView::SaveLastCampaign(s.phase->AwaitPublished_0),
            ),
            Err(m) => stop(s, m),
        },
        EventView::CampaignSaved(r) => match r {
            Ok(_) => if s.looping {
                (SurvivalView { phase: PhaseView::AwaitSleep, ..s }, ActionView::Sleep(SLEEP_SECONDS))
            } else {
                (
                    SurvivalView { phase: PhaseView::AwaitWalletBalance, looping: true, ..s },
                    ActionView::FetchWalletBalance,
                )
            },
            Err(m) => stop(s, m),
        },
        EventView::WalletBalance(r) => match r {
            Ok(msats) => (
                SurvivalView {
                    phase: PhaseView::AwaitDonationBalance,
                    wallet: WalletState {
                        lightning_balance_sat: msats / MSAT_PER_SAT,
                        ..s.wallet
                    },
                    ..s
                },
                ActionView::FetchDonationBalance,
            ),
            Err(m) => stop(s, m),
        },
        EventView::DonationBalance(r) => match r {
            Ok(balance) => (
                SurvivalView { phase: PhaseView::AwaitAgentLog(balance), ..s },
                ActionView::ReadAgentLog,
            ),
            Err(m) => stop(s, m),
        },
        EventView::AgentLog(log) => {
            let balance = s.phase->AwaitAgentLog_0;
            (
                SurvivalView {
                    phase: PhaseView::AwaitLogAppended(should_post_spec(logged_balance(log), balance)),
                    ..s
                },
                ActionView::AppendAgentLog(record_bytes(decimal(balance as nat))),
            )
        },
        EventView::LogAppended(r) => match r {
            Ok(_) => if s.phase->AwaitLogAppended_0 {
                (SurvivalView { phase: PhaseView::AwaitLastCampaign, ..s }, ActionView::ReadLastCampaign)
            } else {
                (SurvivalView { phase: PhaseView::AwaitSleep, ..s }, ActionView::Sleep(SLEEP_SECONDS))
            },
            Err(m) => stop(s, m),
        },
        EventView::Slept => (
            SurvivalView { phase: PhaseView::AwaitWalletBalance, ..s },
            ActionView::FetchWalletBalance,
        ),
    }
}


/// Whether the event reports a failure of the action that was asked.
pub open spec fn is_failure(e: EventView) -> bool {
    match e {
        EventView::ModelAnswer(r) => r is Err,
        EventView::Published(r) => r is Err,
        EventView::CampaignSaved(r) => r is Err,
        EventView::WalletBalance(r) => r is Err,
        EventView::DonationBalance(r) => r is Err,
        EventView::LogAppended(r) => r is Err,
        _ => false,
    }
}

/// The balance that a round reads back from the log is the one the round
/// before appended: if the log held `content` (empty or ending with a line
/// feed) when the agent, having seen balance `b1`, appended its record, then a
/// later round that sees balance `b2` posts exactly when
/// `b1 < b2.saturating_sub(100)`.
pub proof fn law_round_reads_back_logged_balance(
    s1: SurvivalView,
    content: Seq<u8>,
    s2: SurvivalView,
    b2: u64,
)
    requires
        s1.phase is AwaitAgentLog,
        content.len() == 0 || content.last() == LINE_FEED,
        s2.phase == PhaseView::AwaitAgentLog(b2),
    ensures
        ({
            let b1 = s1.phase->AwaitAgentLog_0;
            let (_, a1) = next(s1, EventView::AgentLog(Some(content)));
            &&& a1 is AppendAgentLog
            &&& next(s2, EventView::AgentLog(Some(content + a1->AppendAgentLog_0))).0.phase
                == PhaseView::AwaitLogAppended(b1 < saturating_sub_spec(b2, DONATION_THRESHOLD_MSAT))
        }),
{
    let b1 = s1.phase->AwaitAgentLog_0;
    let line = decimal(b1 as nat);
    law_parse_format_round_trip(b1);
    crate::decimal::lemma_decimal_digits(b1 as nat);
    assert(!line.contains('\n')) by {
        if line.contains('\n') {
            let k = choose|k: int| 0 <= k < line.len() && line[k] == '\n';
            assert(is_digit(line[k]));
        }
    }
    assert(!(line.len() > 0 && line.last() == '\r')) by {
        assert(is_digit(line[line.len() - 1]));
    }
    law_last_entry_after_append(content, line);
}

/// A failed action stops the loop and reports the failure; nothing else
/// stops it.
pub proof fn law_only_failures_stop(s: SurvivalView, e: EventView)
    requires
        accepts(s, e),
    ensures
        (next(s, e).0.phase is Stopped) <==> is_failure(e),
        is_failure(e) ==> next(s, e).1 is Stop,
        !is_failure(e) ==> !(next(s, e).1 is Stop),
{
}

/// Only a balance reading changes the wallet, and it sets the lightning
/// balance to the whole satoshis of the millisatoshis read.
pub proof fn law_wallet_follows_balance_readings(s: SurvivalView, e: EventView)
    requires
        accepts(s, e),
    ensures
        e matches EventView::WalletBalance(Ok(msats)) ==> next(s, e).0.wallet == (WalletState {
            lightning_balance_sat: msats / MSAT_PER_SAT,
            ..s.wallet
        }),
        !(e matches EventView::WalletBalance(Ok(_))) ==> next(s, e).0.wallet == s.wallet,
{
}

/// What the agent saves as its last campaign is what it published, and what
/// it published is the model's answer, trimmed and unquoted.
pub proof fn law_saved_campaign_is_published_answer(
    s: SurvivalView,
    answer: Seq<char>,
    published_at: Seq<char>,
)
    requires
        s.phase is AwaitAnswer,
        !is_lone_quote(trimmed(answer)),
    ensures
        ({
            let (s1, a1) = next(s, EventView::ModelAnswer(Ok(answer)));
            let (s2, a2) = next(s1, EventView::Published(Ok(published_at)));
            &&& a1 == ActionView::Publish(cleaned_post(answer))
            &&& accepts(s1, EventView::Published(Ok(published_at)))
            &&& a2 == ActionView::SaveLastCampaign(cleaned_post(answer))
        }),
{
}

/// The model is shown the campaign the agent saved last, or, when none can
/// be read, the default campaign.
pub proof fn law_prompt_is_last_saved_campaign(s: SurvivalView, saved: Option<Seq<char>>)
    requires
        s.phase is AwaitLastCampaign,
    ensures
        accepts(s, EventView::LastCampaign(saved)),
        saved matches Some(t) ==> next(s, EventView::LastCampaign(saved)).1 == ActionView::AskModel(t),
        saved is None ==> next(s, EventView::LastCampaign(saved)).1 == ActionView::AskModel(DEFAULT_CAMPAIGN@),
{
}

/// The text the agent saves after publishing is the published text; when the
/// next campaign is asked for and that saved text is what comes back, the
/// model is shown exactly the campaign published before.
pub proof fn law_published_campaign_is_next_prompt(
    s1: SurvivalView,
    published_at: Seq<char>,
    s2: SurvivalView,
)
    requires
        s1.phase is AwaitPublished,
        s2.phase is AwaitLastCampaign,
    ensures
        ({
            let a = next(s1, EventView::Published(Ok(published_at))).1;
            &&& a == ActionView::SaveLastCampaign(s1.phase->AwaitPublished_0)
            &&& next(s2, EventView::LastCampaign(Some(a->SaveLastCampaign_0))).1
                == ActionView::AskModel(s1.phase->AwaitPublished_0)
        }),
{
}

/// Once the first campaign is out, every round ends either with a new
/// campaign or with a sleep of fifteen seconds, and every campaign in the
/// loop is followed by that sleep.
pub proof fn law_rounds_end_in_sleep(s: SurvivalView, e: EventView)
    requires
        accepts(s, e),
        s.looping,
        e matches EventView::CampaignSaved(Ok(_)) || e matches EventView::LogAppended(Ok(_)),
    ensures
        next(s, e).1 == ActionView::Sleep(SLEEP_SECONDS) || (next(s, e).1 is ReadLastCampaign
            && s.phase == PhaseView::AwaitLogAppended(true)),
{
}

/// The amounts and times of a round: the agent posts again exactly when the
/// balance it logged last is known and more than 100 millisatoshis below the
/// balance it now sees; a wallet reading of `msats` millisatoshis sets the
/// lightning balance to `msats / 1000` whole satoshis; a round that posts
/// nothing sleeps fifteen seconds, and one that posts asks for the campaign
/// saved last.
pub proof fn law_round_amounts(previous: Option<u64>, balance: u64, s: SurvivalView, msats: u64)
    ensures
        should_post_spec(previous, balance) <==> (previous matches Some(p) && p + 100 < balance),
        s.phase is AwaitWalletBalance ==> next(s, EventView::WalletBalance(Ok(msats))).0.wallet.lightning_balance_sat
            == msats / 1000,
        s.phase == PhaseView::AwaitLogAppended(false) ==> next(s, EventView::LogAppended(Ok(()))).1 == ActionView::Sleep(15),
        s.phase == PhaseView::AwaitLogAppended(true) ==> next(s, EventView::LogAppended(Ok(()))).1 is ReadLastCampaign,
        s.phase is Start ==> next(s, EventView::Started).1 is ReadLastCampaign,
{
}

/// The statement that records a published campaign: its text and time go
/// in as they are, between the fixed parts.
pub open spec fn campaign_insert_sql_spec(text: Seq<char>, created_at: Seq<char>) -> Seq<char> {
    "\n        INSERT INTO campaigns ( text, created_at  )\n        VALUES ( "@ + text + ", "@
        + created_at + " )\n        "@
}

/// The statement that records a published campaign, as the agent builds it
/// after its first post.
pub fn campaign_insert_sql(text: &str, created_at: &str) -> (r: String)
    ensures
        r@ == campaign_insert_sql_spec(text@, created_at@),
{
    let mut r = "\n        INSERT INTO campaigns ( text, created_at  )\n        VALUES ( ".to_string();
    r.append(text);
    r.append(", ");
    r.append(created_at);
    r.append(" )\n        ");
    r
}

/// The prompt for the model: the saved campaign, or the default one.
pub fn campaign_prompt(saved: Option<String>) -> (p: String)
    ensures
        p@ == campaign_prompt_spec(
            match saved {
                Some(s) => Some(s@),
                None => None,
            },
        ),
{
    match saved {
        Some(s) => s,
        None => DEFAULT_CAMPAIGN.to_string(),
    }
}

/// The lightning balance in whole satoshis for a balance in millisatoshis.
pub fn sats_from_msats(msats: u64) -> (sats: u64)
    ensures
        sats == msats / MSAT_PER_SAT,
{
    msats / MSAT_PER_SAT
}

/// Whether the agent posts again, given the balance it logged last round
/// and the one it sees now.
pub fn should_post(previous: Option<u64>, balance: u64) -> (b: bool)
    ensures
        b == should_post_spec(previous, balance),
{
    match previous {
        Some(p) => p < balance.saturating_sub(DONATION_THRESHOLD_MSAT),
        None => false,
    }
}

/// The balance logged last in the agent log `log`, if it is a number.
pub fn previous_balance(log: &Option<Vec<u8>>) -> (r: Option<u64>)
    ensures
        r == logged_balance(
            match log {
                Some(b) => Some(b@),
                None => None,
            },
        ),
{
    match log {
        None => None,
        Some(content) => match last_log_entry(content.as_slice()) {
            None => None,
            Some(line) => parse_u64(line.as_str()),
        },
    }
}

impl Sloppy {
    /// A fresh agent: empty wallet, no attempts, loop not started.
    pub fn new() -> (s: Sloppy)
        ensures
            s@.phase is Start,
            !s@.looping,
            s@.wallet == (WalletState { onchain_balance_sat: 0, lightning_balance_sat: 0 }),
            s.history().len() == 0,
    {
        Sloppy {
            wallet: WalletState { onchain_balance_sat: 0, lightning_balance_sat: 0 },
            fundraising_history: Vec::new(),
            phase: Phase::Start,
            looping: false,
        }
    }

    /// Records a fundraising attempt.
    pub fn update_fundraising_history(&mut self, attempt: FundraisingAttempt)
        ensures
            final(self).history() == old(self).history().push(attempt),
            final(self)@ == old(self)@,
    {
        self.fundraising_history.push(attempt);
    }

    /// Whether the loop stopped.
    pub fn is_stopped(&self) -> (b: bool)
        ensures
            b == (self@.phase is Stopped),
    {
        match self.phase {
            Phase::Stopped => true,
            _ => false,
        }
    }

    /// Whether the first campaign was posted and the loop over wallet
    /// balances has begun.
    pub fn is_looping(&self) -> (b: bool)
        ensures
            b == self@.looping,
    {
        self.looping
    }

    /// Whether [`Sloppy::step`] can take `event` now.
    pub fn accepts_event(&self, event: &Event) -> (b: bool)
        ensures
            b == accepts(self@, event@),
    {
        match event {
            Event::Started => match self.phase { Phase::Start => true, _ => false },
            Event::LastCampaign(_) => match self.phase { Phase::AwaitLastCampaign => true, _ => false },
            Event::ModelAnswer(r) => match self.phase {
                Phase::AwaitAnswer => match r {
                    Ok(a) => {
                        let t = to_chars(trim(a.as_str()));
                        !(t.len() == 1 && (t[0] == '"' || t[0] == '\''))
                    },
                    Err(_) => true,
                },
                _ => false,
            },
            Event::Published(_) => match self.phase { Phase::AwaitPublished(_) => true, _ => false },
            Event::CampaignSaved(_) => match self.phase { Phase::AwaitSaved => true, _ => false },
            Event::WalletBalance(_) => match self.phase { Phase::AwaitWalletBalance => true, _ => false },
            Event::DonationBalance(_) => match self.phase { Phase::AwaitDonationBalance => true, _ => false },
            Event::AgentLog(_) => match self.phase { Phase::AwaitAgentLog(_) => true, _ => false },
            Event::LogAppended(_) => match self.phase { Phase::AwaitLogAppended(_) => true, _ => false },
            Event::Slept => match self.phase { Phase::AwaitSleep => true, _ => false },
        }
    }

    fn stop_with(&mut self, error: String) -> (a: Action)
        ensures
            (final(self)@, a@) == stop(old(self)@, error@),
            final(self).history() == old(self).history(),
    {
        self.phase = Phase::Stopped;
        Action::Stop(error)
    }

    /// One step of the survival loop: takes what the last action brought
    /// back, and returns the next action.
    pub fn step(&mut self, event: Event) -> (a: Action)
        requires
            accepts(old(self)@, event@),
        ensures
            (final(self)@, a@) == next(old(self)@, event@),
            final(self).history() == old(self).history(),
    {
        match event {
            Event::Started => {
                self.phase = Phase::AwaitLastCampaign;
                Action::ReadLastCampaign
            },
            Event::LastCampaign(saved) => {
                self.phase = Phase::AwaitAnswer;
                Action::AskModel(campaign_prompt(saved))
            },
            Event::ModelAnswer(r) => match r {
                Ok(answer) => {
                    let post = clean_post(answer.as_str()).to_string();
                    self.phase = Phase::AwaitPublished(post.clone());
                    Action::Publish(post)
                },
                Err(m) => self.stop_with(m),
            },
            Event::Published(r) => match r {
                Ok(_) => {
                    let text = match &self.phase {
                        Phase::AwaitPublished(t) => t.clone(),
                        _ => String::new(),
                    };
                    self.phase = Phase::AwaitSaved;
                    Action::SaveLastCampaign(text)
                },
                Err(m) => self.stop_with(m),
            },
            Event::CampaignSaved(r) => match r {
                Ok(_) => if self.looping {
                    self.phase = Phase::AwaitSleep;
                    Action::Sleep(SLEEP_SECONDS)
                } else {
                    self.phase = Phase::AwaitWalletBalance;
                    self.looping = true;
                    Action::FetchWalletBalance
                },
                Err(m) => self.stop_with(m),
            },
            Event::WalletBalance(r) => match r {
                Ok(msats) => {
                    self.wallet.lightning_balance_sat = sats_from_msats(msats);
                    self.phase = Phase::AwaitDonationBalance;
                    Action::FetchDonationBalance
                },
                Err(m) => self.stop_with(m),
            },
            Event::DonationBalance(r) => match r {
                Ok(balance) => {
                    self.phase = Phase::AwaitAgentLog(balance);
                    Action::ReadAgentLog
                },
                Err(m) => self.stop_with(m),
            },
            Event::AgentLog(log) => {
                let balance = match self.phase {
                    Phase::AwaitAgentLog(b) => b,
                    _ => 0,
                };
                let previous = previous_balance(&log);
                let post = should_post(previous, balance);
                let line = format_u64(balance);
                self.phase = Phase::AwaitLogAppended(post);
                Action::AppendAgentLog(log_record(line.as_str()))
            },
            Event::LogAppended(r) => match r {
                Ok(_) => {
                    let post = match self.phase {
                        Phase::AwaitLogAppended(p) => p,
                        _ => false,
                    };
                    if post {
                        self.phase = Phase::AwaitLastCampaign;
                        Action::ReadLastCampaign
                    } else {
                        self.phase = Phase::AwaitSleep;
                        Action::Sleep(SLEEP_SECONDS)
                    }
                },
                Err(m) => self.stop_with(m),
            },
            Event::Slept => {
                self.phase = Phase::AwaitWalletBalance;
                Action::FetchWalletBalance
            },
        }
    }
}

} // verus!
