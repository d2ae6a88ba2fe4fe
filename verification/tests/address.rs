use driver_station_rs::address::{team_number_to_ip, MAX_TEAM_NUMBER};
use driver_station_rs::driverstation;

#[test]
fn one_digit_team_number() {
    let result = driverstation::team_number_to_ip(8);
    assert_eq!(result, "10.00.08.2")
}

#[test]
fn two_digit_team_number() {
    let result = driverstation::team_number_to_ip(82);
    assert_eq!(result, "10.00.82.2")
}

#[test]
fn three_digit_team_number() {
    let result = driverstation::team_number_to_ip(823);
    assert_eq!(result, "10.08.23.2")
}

#[test]
fn four_digit_team_number() {
    let result = driverstation::team_number_to_ip(8230);
    assert_eq!(result, "10.82.30.2")
}

#[test]
fn team_zero_is_all_zeros() {
    assert_eq!(team_number_to_ip(0), "10.00.00.2");
}

#[test]
fn largest_team_number() {
    assert_eq!(MAX_TEAM_NUMBER, 9999);
    assert_eq!(team_number_to_ip(MAX_TEAM_NUMBER), "10.99.99.2");
}

#[test]
fn every_digit_shows_in_its_place() {
    assert_eq!(team_number_to_ip(1234), "10.12.34.2");
    assert_eq!(team_number_to_ip(5678), "10.56.78.2");
    assert_eq!(team_number_to_ip(9090), "10.90.90.2");
    assert_eq!(team_number_to_ip(1000), "10.10.00.2");
    assert_eq!(team_number_to_ip(100), "10.01.00.2");
    assert_eq!(team_number_to_ip(10), "10.00.10.2");
}

#[test]
fn address_is_always_ten_characters() {
    let mut team: u16 = 0;
    while team <= MAX_TEAM_NUMBER {
        let ip = team_number_to_ip(team);
        assert_eq!(ip.len(), 10);
        assert_eq!(ip, format!("10.{:02}.{:02}.2", team / 100, team % 100));
        team += 1;
    }
}
