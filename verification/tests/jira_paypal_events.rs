use eop::jira::{
    jira_handle, JiraEvent, JiraFields, JiraIssue, JiraNamed, JiraStatus, JiraUser,
};
use eop::paypal::{format_dec, parse_decimal, paypal_handle, Dec, PayPalIpn};

fn jira_event(webhook_event: &str) -> JiraEvent {
    JiraEvent {
        user: JiraUser {
            account_id: "acc-1".to_string(),
            display_name: "Dana".to_string(),
        },
        issue: JiraIssue {
            self_url: "https://psychonaut.atlassian.net/rest/api/2/issue/1".to_string(),
            key: "PW-12".to_string(),
            fields: JiraFields {
                issuetype: JiraNamed { name: "Bug".to_string() },
                project: JiraNamed { name: "PsychonautWiki".to_string() },
                priority: JiraNamed { name: "High".to_string() },
                status: JiraStatus {
                    name: "Done".to_string(),
                    status_category: JiraNamed { name: "done".to_string() },
                },
                summary: "Fix the thing".to_string(),
                creator: JiraUser {
                    account_id: "acc-1".to_string(),
                    display_name: "Dana".to_string(),
                },
                reporter: JiraUser {
                    account_id: "acc-1".to_string(),
                    display_name: "Dana".to_string(),
                },
            },
        },
        webhook_event: webhook_event.to_string(),
    }
}

#[test]
fn deleted_issue_uses_deleted_verb() {
    let msg = jira_handle(&jira_event("jira:issue_deleted"))
        .expect("a recognised issue event must produce a message");
    assert!(msg.loud);
    assert!(msg.text.contains(" deleted "));
    assert_eq!(
        msg.text,
        "[<i>high</i> | <i>done</i>] <a href=\"https://psychonaut.atlassian.net/people/acc-1\"\
         >Dana</a> deleted bug <a href=\"https://psychonaut.atlassian.net/browse/PW-12\">PW-12\
         </a> [PsychonautWiki]: <b>Fix the thing</b>"
    );
}

#[test]
fn created_and_updated_verbs() {
    let created = jira_handle(&jira_event("jira:issue_created")).unwrap();
    assert!(created.text.contains(" created "));
    let updated = jira_handle(&jira_event("jira:issue_updated")).unwrap();
    assert!(updated.text.contains(" updated "));
}

#[test]
fn unrecognized_webhook_event_is_ignored() {
    assert!(jira_handle(&jira_event("jira:worklog_updated")).is_none());
    assert!(jira_handle(&jira_event("")).is_none());
}

fn ipn(gross: &str, fee: &str, currency: &str, payer_status: &str) -> PayPalIpn {
    PayPalIpn {
        mc_gross: gross.to_string(),
        protection_eligibility: "Eligible".to_string(),
        payer_id: "P1".to_string(),
        payment_date: "today".to_string(),
        payment_status: "Completed".to_string(),
        charset: "utf-8".to_string(),
        first_name: "Ada".to_string(),
        mc_fee: fee.to_string(),
        notify_version: "3.9".to_string(),
        custom: "".to_string(),
        payer_status: payer_status.to_string(),
        business: "b@example.org".to_string(),
        quantity: "1".to_string(),
        verify_sign: "SECRET-REDACTED".to_string(),
        payer_email: "ada@example.org".to_string(),
        txn_id: "T1".to_string(),
        payment_type: "instant".to_string(),
        last_name: "Lovelace".to_string(),
        receiver_email: "b@example.org".to_string(),
        payment_fee: "".to_string(),
        shipping_discount: "0.00".to_string(),
        receiver_id: "R1".to_string(),
        insurance_amount: "0.00".to_string(),
        txn_type: "web_accept".to_string(),
        item_name: "Donation".to_string(),
        discount: "0.00".to_string(),
        mc_currency: currency.to_string(),
        item_number: "".to_string(),
        residence_country: "US".to_string(),
        shipping_method: "Default".to_string(),
        transaction_subject: "".to_string(),
        payment_gross: "".to_string(),
        ipn_track_id: "track1".to_string(),
    }
}

#[test]
fn payment_scenario_reports_net_fee_gross() {
    let msg = paypal_handle(&ipn("10.00", "0.50", "USD", "verified"))
        .expect("a well-formed payment must produce a message");
    assert!(msg.loud);
    assert!(msg.text.contains("9.50"));
    assert!(msg.text.contains("0.50"));
    assert!(msg.text.contains("10.00"));
    assert!(msg.text.contains("USD"));
    assert!(msg.text.contains("\u{2713}"));
    assert_eq!(
        msg.text,
        "Received <b>USD 9.50</b> (fee <b>USD 0.50</b>, gr. <b>USD 10.00</b>) from <b>Ada \
         Lovelace</b> [<b>\u{2713}, US, ada@example.org</b>]"
    );
}

#[test]
fn unverified_payer_gets_cross_glyph() {
    let msg = paypal_handle(&ipn("1.00", "0.10", "EUR", "unverified")).unwrap();
    assert!(msg.text.contains("\u{2718}"));
    assert!(!msg.text.contains("\u{2713}"));
}

#[test]
fn mixed_scales_align_on_the_larger() {
    let msg = paypal_handle(&ipn("10", "0.505", "USD", "verified")).unwrap();
    assert!(msg.text.contains("USD 9.495"));
}

#[test]
fn malformed_amount_produces_nothing() {
    assert!(paypal_handle(&ipn("ten", "0.50", "USD", "verified")).is_none());
    assert!(paypal_handle(&ipn("10.00", "", "USD", "verified")).is_none());
    assert!(paypal_handle(&ipn("1.2.3", "0.50", "USD", "verified")).is_none());
}

#[test]
fn parse_decimal_accepts_plain_forms() {
    let d = parse_decimal("10.00").unwrap();
    assert_eq!((d.num, d.scale), (1000, 2));
    let d = parse_decimal("-3.5").unwrap();
    assert_eq!((d.num, d.scale), (-35, 1));
    let d = parse_decimal("42").unwrap();
    assert_eq!((d.num, d.scale), (42, 0));
    let d = parse_decimal(".5").unwrap();
    assert_eq!((d.num, d.scale), (5, 1));
    let d = parse_decimal("5.").unwrap();
    assert_eq!((d.num, d.scale), (5, 0));
    let d = parse_decimal("0.005").unwrap();
    assert_eq!((d.num, d.scale), (5, 3));
}

#[test]
fn parse_decimal_rejects_malformed_forms() {
    assert!(parse_decimal("").is_none());
    assert!(parse_decimal("-").is_none());
    assert!(parse_decimal(".").is_none());
    assert!(parse_decimal("1.2.3").is_none());
    assert!(parse_decimal("1x2").is_none());
    assert!(parse_decimal("99999999999999999999").is_none());
}

#[test]
fn format_dec_renders_scales() {
    assert_eq!(format_dec(&Dec { num: 950, scale: 2 }), "9.50");
    assert_eq!(format_dec(&Dec { num: -950, scale: 2 }), "-9.50");
    assert_eq!(format_dec(&Dec { num: 5, scale: 3 }), "0.005");
    assert_eq!(format_dec(&Dec { num: 7, scale: 0 }), "7");
    assert_eq!(format_dec(&Dec { num: 1000, scale: 2 }), "10.00");
}
