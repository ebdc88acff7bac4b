use image_manager::get_env;
use image_manager::get_env_typed;

fn vars(pairs: &[(&str, &str)]) -> Vec<(String, String)> {
    pairs.iter().map(|(k, v)| (k.to_string(), v.to_string())).collect()
}

#[test]
fn it_gets_env_variables() {
    let env = vars(&[("HOME", "/root"), ("PATH", "/usr/local/bin:/usr/bin:/bin")]);
    assert!(get_env(&env, "PATH", "test").len() > 4);
}

#[test]
fn it_gets_env_variables_default() {
    let env = vars(&[("HOME", "/root"), ("PATH", "/usr/local/bin:/usr/bin:/bin")]);
    assert!(get_env(&env, "FOOBAR", "test").eq("test"));
}

#[test]
fn it_gets_typed_env_variables() {
    let env = vars(&[("HOME", "/root"), ("FOO", "77")]);
    assert!(get_env_typed::<u16>(&env, "FOO", 9) == 77);
}

#[test]
fn it_gets_typed_env_variables_default() {
    let env = vars(&[("HOME", "/root"), ("PATH", "/usr/local/bin:/usr/bin:/bin")]);
    assert!(get_env_typed::<u16>(&env, "FOOBAR", 9) == 9);
}

#[test]
fn it_gets_typed_env_variables_default_string() {
    let env = vars(&[("HOME", "/root"), ("PATH", "/usr/local/bin:/usr/bin:/bin")]);
    assert_eq!(
        get_env_typed::<String>(&env, "FOOBAR", "0.0.0.0".to_owned()),
        "0.0.0.0".to_owned()
    );
}

#[test]
fn first_variable_of_a_name_wins() {
    let env = vars(&[("PORT", "7007"), ("PORT", "8080")]);
    assert_eq!(get_env(&env, "PORT", "0"), "7007");
    assert_eq!(get_env_typed::<u16>(&env, "PORT", 1), 7007);
}

#[test]
fn unreadable_value_gives_default() {
    let env = vars(&[("PORT", "70070"), ("SHLVL", " 2"), ("N", "-1"), ("E", "")]);
    assert_eq!(get_env_typed::<u16>(&env, "PORT", 7007), 7007);
    assert_eq!(get_env_typed::<u16>(&env, "SHLVL", 9), 9);
    assert_eq!(get_env_typed::<u16>(&env, "N", 9), 9);
    assert_eq!(get_env_typed::<u16>(&env, "E", 9), 9);
    assert_eq!(get_env_typed::<u64>(&env, "PORT", 1), 70070);
}
