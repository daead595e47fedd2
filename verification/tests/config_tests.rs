use latency_reader::config::default_address;
use latency_reader::config::Config;

#[test]
fn the_default_address_is_local() {
    assert_eq!(default_address(), "127.0.0.1:4999");
}

#[test]
fn a_default_config_holds_the_default_address() {
    let c = Config::default();
    assert_eq!(c.address, "127.0.0.1:4999");
}
