use user_builder::account_type::AccountType;
use user_builder::address::Address;
use user_builder::user::User;

fn address(country: &str, state: &str, city: &str) -> Address {
    Address {
        country: country.to_string(),
        state: state.to_string(),
        city: city.to_string(),
    }
}

fn assert_same_address(a: &Address, b: &Address) {
    assert_eq!(a.country, b.country);
    assert_eq!(a.state, b.state);
    assert_eq!(a.city, b.city);
}

#[test]
fn account_type_default_is_savings() {
    assert_eq!(AccountType::default(), AccountType::Savings);
}

#[test]
fn address_default_is_all_empty() {
    let ad = Address::default();
    assert_eq!(ad.country, "");
    assert_eq!(ad.state, "");
    assert_eq!(ad.city, "");
}

#[test]
fn scenario_no_setters() {
    let u = User::new(
        String::from("Manji"),
        String::from("Gar"),
        String::from("12345678"),
    )
    .build();
    assert_eq!(u.first_name, "Manji");
    assert_eq!(u.last_name, "Gar");
    assert_eq!(u.account_number, "12345678");
    assert_eq!(u.account_type, AccountType::Savings);
    assert_eq!(u.age, 0);
    assert_same_address(&u.address, &address("", "", ""));
}

#[test]
fn scenario_all_setters() {
    let u = User::new(
        String::from("James"),
        String::from("Victor"),
        String::from("12345678"),
    )
    .age(12)
    .account_type(AccountType::Current)
    .address(address("Cotonou", "", ""))
    .build();
    assert_eq!(u.first_name, "James");
    assert_eq!(u.last_name, "Victor");
    assert_eq!(u.account_number, "12345678");
    assert_eq!(u.account_type, AccountType::Current);
    assert_eq!(u.age, 12);
    assert_same_address(&u.address, &address("Cotonou", "", ""));
}

#[test]
fn empty_required_fields_are_accepted() {
    let u = User::new(String::new(), String::new(), String::new()).build();
    assert_eq!(u.first_name, "");
    assert_eq!(u.last_name, "");
    assert_eq!(u.account_number, "");
    assert_eq!(u.account_type, AccountType::Savings);
    assert_eq!(u.age, 0);
    assert_same_address(&u.address, &address("", "", ""));
}

#[test]
fn set_subset_leaves_rest_at_default() {
    let u = User::new(
        String::from("Ada"),
        String::from("Love"),
        String::from("42"),
    )
    .age(255)
    .build();
    assert_eq!(u.age, 255);
    assert_eq!(u.account_type, AccountType::Savings);
    assert_same_address(&u.address, &address("", "", ""));

    let v = User::new(
        String::from("Ada"),
        String::from("Love"),
        String::from("42"),
    )
    .account_type(AccountType::Current)
    .build();
    assert_eq!(v.age, 0);
    assert_eq!(v.account_type, AccountType::Current);
    assert_same_address(&v.address, &address("", "", ""));
}

#[test]
fn last_setter_call_wins() {
    let u = User::new(
        String::from("Ada"),
        String::from("Love"),
        String::from("42"),
    )
    .age(7)
    .age(9)
    .account_type(AccountType::Current)
    .account_type(AccountType::Savings)
    .address(address("Benin", "", ""))
    .address(address("Togo", "", "Lome"))
    .build();
    assert_eq!(u.age, 9);
    assert_eq!(u.account_type, AccountType::Savings);
    assert_same_address(&u.address, &address("Togo", "", "Lome"));
}

#[test]
fn setter_order_does_not_matter() {
    let u = User::new(
        String::from("Ada"),
        String::from("Love"),
        String::from("42"),
    )
    .age(30)
    .account_type(AccountType::Current)
    .address(address("Benin", "Littoral", "Cotonou"))
    .build();
    let v = User::new(
        String::from("Ada"),
        String::from("Love"),
        String::from("42"),
    )
    .address(address("Benin", "Littoral", "Cotonou"))
    .account_type(AccountType::Current)
    .age(30)
    .build();
    assert_eq!(u.first_name, v.first_name);
    assert_eq!(u.last_name, v.last_name);
    assert_eq!(u.account_number, v.account_number);
    assert_eq!(u.account_type, v.account_type);
    assert_eq!(u.age, v.age);
    assert_same_address(&u.address, &v.address);
}

#[test]
fn refinalizing_yields_equal_users() {
    let mut b = User::new(
        String::from("James"),
        String::from("Victor"),
        String::from("12345678"),
    );
    b.age(12).account_type(AccountType::Current);
    let u = b.build();
    let v = b.build();
    assert_eq!(u.first_name, v.first_name);
    assert_eq!(u.last_name, v.last_name);
    assert_eq!(u.account_number, v.account_number);
    assert_eq!(u.account_type, v.account_type);
    assert_eq!(u.age, v.age);
    assert_same_address(&u.address, &v.address);
}

#[test]
fn cloned_address_keeps_its_fields() {
    let ad = address("Benin", "Littoral", "Cotonou");
    let copy = ad.clone();
    assert_same_address(&copy, &ad);
}
