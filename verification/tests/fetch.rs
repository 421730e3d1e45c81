use sarbot::fetch::{balance_step, price_step, BalanceStep, Outcome, PriceStep, BALANCE_ATTEMPTS};

#[test]
fn balance_response_ends_the_loop() {
    assert_eq!(balance_step(0, Outcome::Success), BalanceStep::ReadBody);
    assert_eq!(balance_step(2, Outcome::Success), BalanceStep::ReadBody);
    assert_eq!(balance_step(1, Outcome::HttpError), BalanceStep::ReportError);
}

#[test]
fn three_transport_failures_give_up() {
    assert_eq!(balance_step(0, Outcome::TransportError), BalanceStep::Retry(1));
    assert_eq!(balance_step(1, Outcome::TransportError), BalanceStep::Retry(2));
    assert_eq!(balance_step(2, Outcome::TransportError), BalanceStep::GiveUp);
}

#[test]
fn balance_loop_sends_at_most_three_requests() {
    let mut retries: u32 = 0;
    let mut sent: u32 = 0;
    loop {
        sent += 1;
        match balance_step(retries, Outcome::TransportError) {
            BalanceStep::Retry(n) => retries = n,
            step => {
                assert_eq!(step, BalanceStep::GiveUp);
                break;
            }
        }
    }
    assert_eq!(sent, BALANCE_ATTEMPTS);
}

#[test]
fn price_poll_waits_a_second_on_failure() {
    assert_eq!(price_step(Outcome::Success), PriceStep::ReadBody);
    assert_eq!(price_step(Outcome::HttpError), PriceStep::WaitThenRetry(1000));
    assert_eq!(price_step(Outcome::TransportError), PriceStep::WaitThenRetry(1000));
}
