use hermes_rs::jenkins::{hash_string, jenkins_add, jenkins_mix1, jenkins_mix2, update_jenkins_hash};

#[test]
fn hash_of_global_and_print() {
    assert_eq!(hash_string("global"), 615793799);
    assert_eq!(hash_string("print"), 2794059355);
}

#[test]
fn hash_of_other_known_strings() {
    assert_eq!(hash_string("a + b = "), 1959788596);
    assert_eq!(hash_string("add"), 1492819387);
    assert_eq!(hash_string("add() function called"), 970028757);
    assert_eq!(hash_string("a - b = "), 3187819469);
    assert_eq!(hash_string("sub"), 3122764749);
    assert_eq!(hash_string("sub() function called"), 4183975178);
}

#[test]
fn hash_of_empty_string_is_initial_value() {
    assert_eq!(hash_string(""), 0);
}

#[test]
fn hash_steps_wrap() {
    assert_eq!(jenkins_add(u32::MAX, 2), 1);
    assert_eq!(jenkins_mix1(1), 1025);
    assert_eq!(jenkins_mix1(0x8000_0000), 0x8000_0000);
    assert_eq!(jenkins_mix2(64), 65);
    assert_eq!(update_jenkins_hash(0, 103), jenkins_mix2(jenkins_mix1(103)));
}
