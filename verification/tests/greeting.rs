use qq_bot::daily_greeting::{offline_text, online_text, scheduled_greetings};
use qq_bot::deploy::caddy::reload_outcome;

#[test]
fn greetings_morning_and_evening() {
    let g = scheduled_greetings();
    assert_eq!(g.len(), 2);
    assert_eq!((g[0].cron.as_str(), g[0].text.as_str()), ("0 8 * * *", "早上好！"));
    assert_eq!((g[1].cron.as_str(), g[1].text.as_str()), ("0 20 * * *", "下班！"));
    assert_eq!(online_text(), "我上线了");
    assert_eq!(offline_text(), "下了");
}

#[test]
fn caddy_reload_outcome() {
    assert_eq!(reload_outcome(true, "x", "y"), Ok(()));
    assert_eq!(
        reload_outcome(false, "", "Job for caddy.service failed.\n"),
        Err("systemctl reload caddy 失败: Job for caddy.service failed.".to_string())
    );
}
