use vaultpass::args::{overwrite_prompt, read_args, store_path, write_args};

#[test]
fn store_path_prefixes_namespace() {
    assert_eq!(store_path("db"), "password-store/db");
    assert_eq!(store_path(""), "password-store/");
}

#[test]
fn read_args_shape() {
    assert_eq!(
        read_args("mail/login"),
        vec![
            "read".to_string(),
            "-field=data".to_string(),
            "password-store/mail/login".to_string(),
        ]
    );
}

#[test]
fn write_args_shape() {
    assert_eq!(
        write_args("mail/login"),
        vec![
            "write".to_string(),
            "password-store/mail/login".to_string(),
            "data=-".to_string(),
        ]
    );
}

#[test]
fn overwrite_prompt_names_the_secret() {
    assert_eq!(
        overwrite_prompt("db"),
        "A password already exists for \"db\". Overwrite?"
    );
}
