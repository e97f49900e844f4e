use sloppy::agent_log::log_record;
use sloppy::survival::{
    campaign_insert_sql, campaign_prompt, previous_balance, sats_from_msats, should_post, Action,
    Event, FundraisingAttempt, Sloppy, SocialMediaPost, WalletState, DEFAULT_CAMPAIGN,
};

fn step(s: &mut Sloppy, e: Event) -> Action {
    assert!(s.accepts_event(&e), "event {:?} not expected", e);
    s.step(e)
}

/// Runs the loop up to the first wallet reading.
fn started() -> Sloppy {
    let mut s = Sloppy::new();
    assert_eq!(step(&mut s, Event::Started), Action::ReadLastCampaign);
    assert_eq!(step(&mut s, Event::LastCampaign(None)), Action::AskModel(DEFAULT_CAMPAIGN.to_string()));
    assert_eq!(
        step(&mut s, Event::ModelAnswer(Ok("  \"Feed me sats\"\n".to_string()))),
        Action::Publish("Feed me sats".to_string())
    );
    assert_eq!(
        step(&mut s, Event::Published(Ok("1700000000".to_string()))),
        Action::SaveLastCampaign("Feed me sats".to_string())
    );
    assert_eq!(step(&mut s, Event::CampaignSaved(Ok(()))), Action::FetchWalletBalance);
    s
}

#[test]
fn new_agent_is_empty() {
    let s = Sloppy::new();
    assert_eq!(s.wallet(), WalletState { onchain_balance_sat: 0, lightning_balance_sat: 0 });
    assert_eq!(s.history_len(), 0);
    assert!(!s.is_stopped());
}

#[test]
fn first_round_posts_when_donations_came_in() {
    let mut s = started();
    assert_eq!(step(&mut s, Event::WalletBalance(Ok(5_500_999))), Action::FetchDonationBalance);
    assert_eq!(s.wallet().lightning_balance_sat, 5_500);
    assert_eq!(step(&mut s, Event::DonationBalance(Ok(5_000))), Action::ReadAgentLog);
    assert_eq!(
        step(&mut s, Event::AgentLog(Some(b"1000\n4899\n".to_vec()))),
        Action::AppendAgentLog(b"5000\n".to_vec())
    );
    assert_eq!(step(&mut s, Event::LogAppended(Ok(()))), Action::ReadLastCampaign);
    assert_eq!(
        step(&mut s, Event::LastCampaign(Some("Feed me sats".to_string()))),
        Action::AskModel("Feed me sats".to_string())
    );
    assert_eq!(step(&mut s, Event::ModelAnswer(Ok("'New plea'".to_string()))), Action::Publish("New plea".to_string()));
    assert_eq!(step(&mut s, Event::Published(Ok("1".to_string()))), Action::SaveLastCampaign("New plea".to_string()));
    assert_eq!(step(&mut s, Event::CampaignSaved(Ok(()))), Action::Sleep(15));
    assert_eq!(step(&mut s, Event::Slept), Action::FetchWalletBalance);
}

#[test]
fn quiet_round_sleeps() {
    let mut s = started();
    step(&mut s, Event::WalletBalance(Ok(0)));
    step(&mut s, Event::DonationBalance(Ok(5_000)));
    assert_eq!(
        step(&mut s, Event::AgentLog(Some(b"4900\n".to_vec()))),
        Action::AppendAgentLog(b"5000\n".to_vec())
    );
    assert_eq!(step(&mut s, Event::LogAppended(Ok(()))), Action::Sleep(15));
}

#[test]
fn no_log_means_no_post() {
    let mut s = started();
    step(&mut s, Event::WalletBalance(Ok(0)));
    step(&mut s, Event::DonationBalance(Ok(1_000_000)));
    step(&mut s, Event::AgentLog(None));
    assert_eq!(step(&mut s, Event::LogAppended(Ok(()))), Action::Sleep(15));
}

#[test]
fn each_round_reads_what_the_last_one_logged() {
    let mut s = started();
    let mut log = b"Agent created at some time\n".to_vec();
    let balances = [10_000u64, 10_050, 10_200, 10_200, 9_000];
    let expected_post = [false, false, true, false, false];
    for (i, b) in balances.iter().enumerate() {
        step(&mut s, Event::WalletBalance(Ok(*b)));
        step(&mut s, Event::DonationBalance(Ok(*b)));
        let append = step(&mut s, Event::AgentLog(Some(log.clone())));
        match append {
            Action::AppendAgentLog(bytes) => {
                assert_eq!(bytes, log_record(&b.to_string()));
                log.extend(bytes);
            }
            other => panic!("unexpected {:?}", other),
        }
        let next = step(&mut s, Event::LogAppended(Ok(())));
        if expected_post[i] {
            assert_eq!(next, Action::ReadLastCampaign, "round {}", i);
            step(&mut s, Event::LastCampaign(Some("x".to_string())));
            step(&mut s, Event::ModelAnswer(Ok("y".to_string())));
            step(&mut s, Event::Published(Ok("t".to_string())));
            assert_eq!(step(&mut s, Event::CampaignSaved(Ok(()))), Action::Sleep(15));
        } else {
            assert_eq!(next, Action::Sleep(15), "round {}", i);
        }
        assert_eq!(step(&mut s, Event::Slept), Action::FetchWalletBalance);
    }
}

#[test]
fn failures_stop_the_loop() {
    let mut s = started();
    assert_eq!(
        step(&mut s, Event::WalletBalance(Err("relay timeout".to_string()))),
        Action::Stop("relay timeout".to_string())
    );
    assert!(s.is_stopped());
    assert!(!s.accepts_event(&Event::Slept));

    let mut s = Sloppy::new();
    step(&mut s, Event::Started);
    step(&mut s, Event::LastCampaign(None));
    assert_eq!(
        step(&mut s, Event::ModelAnswer(Err("HTTP Error: 500".to_string()))),
        Action::Stop("HTTP Error: 500".to_string())
    );
}

#[test]
fn lone_quote_answer_is_refused() {
    let mut s = Sloppy::new();
    step(&mut s, Event::Started);
    step(&mut s, Event::LastCampaign(None));
    assert!(!s.accepts_event(&Event::ModelAnswer(Ok(" \" ".to_string()))));
    assert!(s.accepts_event(&Event::ModelAnswer(Ok("\"\"".to_string()))));
}

#[test]
fn events_out_of_turn_are_refused() {
    let s = Sloppy::new();
    assert!(!s.accepts_event(&Event::Slept));
    assert!(!s.accepts_event(&Event::LastCampaign(None)));
    assert!(s.accepts_event(&Event::Started));
}

#[test]
fn decision_and_helpers() {
    assert!(should_post(Some(4_899), 5_000));
    assert!(!should_post(Some(4_900), 5_000));
    assert!(!should_post(Some(0), 100));
    assert!(!should_post(Some(0), 50));
    assert!(!should_post(None, u64::MAX));
    assert_eq!(sats_from_msats(1_999), 1);
    assert_eq!(sats_from_msats(999), 0);
    assert_eq!(previous_balance(&Some(b"1\n22\n".to_vec())), Some(22));
    assert_eq!(previous_balance(&Some(b"1\nAgent created\n".to_vec())), None);
    assert_eq!(previous_balance(&None), None);
    assert_eq!(campaign_prompt(Some("old".to_string())), "old");
    assert_eq!(campaign_prompt(None), DEFAULT_CAMPAIGN);
}

#[test]
fn insert_statement_text() {
    assert_eq!(
        campaign_insert_sql("hi", "17"),
        "\n        INSERT INTO campaigns ( text, created_at  )\n        VALUES ( hi, 17 )\n        "
    );
}

#[test]
fn history_records_attempts() {
    let mut s = Sloppy::new();
    s.update_fundraising_history(FundraisingAttempt {
        timestamp: 1,
        post_content: SocialMediaPost { content: "c".to_string(), platform: "nostr".to_string(), timestamp: 1 },
        donations_received_sat: 3,
        donor_count: 1,
    });
    assert_eq!(s.history_len(), 1);
}
