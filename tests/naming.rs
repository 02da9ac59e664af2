use creator::naming::{
    generate_template_name, is_valid_name, to_camel_case, to_kebab_case, to_pascal_case,
};

#[test]
fn test_to_kebab_case() {
    let inputs = vec![
        ("nav bar", "nav-bar"),
        ("Nav Bar", "nav-bar"),
        ("nav_bar", "nav-bar"),
        ("navBar", "navbar"),
        ("nav-bar", "nav-bar"),
    ];

    for (input, expected) in inputs {
        assert_eq!(to_kebab_case(input), expected);
    }
}

#[test]
fn test_to_pascal_case() {
    let inputs = vec![
        ("nav bar", "NavBar"),
        ("Nav Bar", "NavBar"),
        ("nav_bar", "NavBar"),
        ("nav-bar", "NavBar"),
        ("navBar", "NavBar"),
        ("cat-list", "CatList"),
        ("user-auth", "UserAuth"),
    ];

    for (input, expected) in inputs {
        assert_eq!(to_pascal_case(input), expected);
    }
}

#[test]
fn test_to_camel_case() {
    let inputs = vec![
        ("nav bar", "navBar"),
        ("Nav Bar", "navBar"),
        ("nav_bar", "navBar"),
        ("nav-bar", "navBar"),
        ("cat-list", "catList"),
    ];

    for (input, expected) in inputs {
        assert_eq!(to_camel_case(input), expected);
    }
}

#[test]
fn test_generate_template_name() {
    assert_eq!(generate_template_name("hooks", "cat-list"), "CatList");
    assert_eq!(generate_template_name("hooks", "user-auth"), "UserAuth");
    assert_eq!(generate_template_name("hooks", "use-cats"), "Cats");
    assert_eq!(generate_template_name("hooks", "use-user-data"), "UserData");

    assert_eq!(generate_template_name("components", "cat-list"), "CatList");
    assert_eq!(generate_template_name("components", "user-profile"), "UserProfile");

    assert_eq!(generate_template_name("services", "cat-list"), "CatListService");
    assert_eq!(generate_template_name("services", "user-auth"), "UserAuthService");

    assert_eq!(generate_template_name("types", "user-data"), "UserDataType");

    assert_eq!(generate_template_name("utils", "api-client"), "ApiClient");
}

#[test]
fn test_is_valid_name() {
    assert!(is_valid_name("user"));
    assert!(is_valid_name("user-profile"));
    assert!(is_valid_name("user_profile"));
    assert!(is_valid_name("UserProfile"));
    assert!(is_valid_name("user123"));
    assert!(is_valid_name("123user"));
    assert!(is_valid_name("a"));
    assert!(is_valid_name("ABC123_test-name"));

    assert!(!is_valid_name(""));
    assert!(!is_valid_name("user profile"));
    assert!(!is_valid_name("user@profile"));
    assert!(!is_valid_name("user.profile"));
    assert!(!is_valid_name("user/profile"));
    assert!(!is_valid_name("user\\profile"));
    assert!(!is_valid_name("user#profile"));
    assert!(!is_valid_name("user$profile"));
    assert!(!is_valid_name("user%profile"));
    assert!(!is_valid_name("user+profile"));
    assert!(!is_valid_name("user=profile"));
    assert!(!is_valid_name("user[profile]"));
    assert!(!is_valid_name("user{profile}"));
    assert!(!is_valid_name("user(profile)"));
    assert!(!is_valid_name("user;profile"));
    assert!(!is_valid_name("user:profile"));
    assert!(!is_valid_name("user,profile"));
    assert!(!is_valid_name("user<profile>"));
    assert!(!is_valid_name("user'profile"));
    assert!(!is_valid_name("user\"profile"));
}

#[test]
fn test_to_kebab_case_edge_cases() {
    assert_eq!(to_kebab_case(""), "");
    assert_eq!(to_kebab_case("a"), "a");
    assert_eq!(to_kebab_case("A"), "a");

    assert_eq!(to_kebab_case("   "), "");
    assert_eq!(to_kebab_case("a   b"), "a-b");
    assert_eq!(to_kebab_case("a___b"), "a-b");
    assert_eq!(to_kebab_case("a _ _ b"), "a-b");

    assert_eq!(to_kebab_case("user_name space"), "user-name-space");
    assert_eq!(to_kebab_case(" user name "), "user-name");
    assert_eq!(to_kebab_case("_user_name_"), "user-name");

    assert_eq!(to_kebab_case("api2Client"), "api2client");
    assert_eq!(to_kebab_case("user123Profile"), "user123profile");

    assert_eq!(to_kebab_case("user-profile"), "user-profile");
    assert_eq!(to_kebab_case("already-kebab-case"), "already-kebab-case");
}

#[test]
fn test_to_pascal_case_edge_cases() {
    assert_eq!(to_pascal_case(""), "");
    assert_eq!(to_pascal_case("a"), "A");
    assert_eq!(to_pascal_case("A"), "A");

    assert_eq!(to_pascal_case("   "), "");
    assert_eq!(to_pascal_case("a   b"), "AB");
    assert_eq!(to_pascal_case("a---b"), "AB");
    assert_eq!(to_pascal_case("a___b"), "AB");

    assert_eq!(to_pascal_case("user_name-space test"), "UserNameSpaceTest");
    assert_eq!(to_pascal_case(" user name "), "UserName");
    assert_eq!(to_pascal_case("_user_name_"), "UserName");

    assert_eq!(to_pascal_case("UserProfile"), "UserProfile");
    assert_eq!(to_pascal_case("APIClient"), "APIClient");

    assert_eq!(to_pascal_case("getUserProfile"), "GetUserProfile");
    assert_eq!(to_pascal_case("XMLHttpRequest"), "XMLHttpRequest");

    assert_eq!(to_pascal_case("api2client"), "Api2client");
    assert_eq!(to_pascal_case("user123profile"), "User123profile");

    assert_eq!(to_pascal_case("user"), "User");
    assert_eq!(to_pascal_case("USER"), "USER");
}

#[test]
fn test_to_camel_case_edge_cases() {
    assert_eq!(to_camel_case(""), "");
    assert_eq!(to_camel_case("a"), "a");
    assert_eq!(to_camel_case("A"), "a");

    assert_eq!(to_camel_case("user"), "user");
    assert_eq!(to_camel_case("USER"), "uSER");

    assert_eq!(to_camel_case("userProfile"), "userProfile");
    assert_eq!(to_camel_case("getUserData"), "getUserData");

    assert_eq!(to_camel_case("XMLHttpRequest"), "xMLHttpRequest");
    assert_eq!(to_camel_case("user_name-space test"), "userNameSpaceTest");
}

#[test]
fn test_generate_template_name_edge_cases() {
    assert_eq!(generate_template_name("", ""), "");
    assert_eq!(generate_template_name("components", ""), "");
    assert_eq!(generate_template_name("", "user"), "User");

    assert_eq!(generate_template_name("hooks", "use-"), "");
    assert_eq!(generate_template_name("hooks", "use-use-user"), "UseUser");
    assert_eq!(generate_template_name("hooks", "useUser"), "UseUser");
    assert_eq!(generate_template_name("HOOKS", "use-auth"), "Auth");

    assert_eq!(generate_template_name("COMPONENTS", "user-profile"), "UserProfile");
    assert_eq!(generate_template_name("Services", "api-client"), "ApiClientService");
    assert_eq!(generate_template_name("TYPES", "user-data"), "UserDataType");

    assert_eq!(generate_template_name("unknown", "user-profile"), "UserProfile");
    assert_eq!(generate_template_name("custom-type", "api-client"), "ApiClient");

    assert_eq!(
        generate_template_name("services", "complex_API-client_name"),
        "ComplexAPIClientNameService"
    );
    assert_eq!(generate_template_name("types", "XMLHttpRequest"), "XMLHttpRequestType");

    assert_eq!(generate_template_name("components", "a"), "A");
    assert_eq!(generate_template_name("services", "x"), "XService");
}

#[test]
fn test_unicode_handling() {
    assert!(is_valid_name("usuário"));
    assert_eq!(to_pascal_case("usuário-perfil"), "UsuárioPerfil");
    assert_eq!(to_kebab_case("usuário perfil"), "usuário-perfil");
    assert_eq!(to_camel_case("usuário-perfil"), "usuárioPerfil");

    assert_eq!(to_pascal_case("user-configuração"), "UserConfiguração");
    assert_eq!(generate_template_name("components", "página-usuário"), "PáginaUsuário");
}

#[test]
fn camel_case_is_pascal_case_with_first_character_lowered() {
    for input in ["nav bar", "XMLHttpRequest", "user_name-space test", "Édition spéciale", "a"] {
        let pascal = to_pascal_case(input);
        let camel = to_camel_case(input);
        let mut chars = pascal.chars();
        let first = chars.next().unwrap();
        let expected = format!("{}{}", first.to_lowercase(), chars.as_str());
        assert_eq!(camel, expected);
    }
    assert_eq!(to_camel_case("  _-  "), "");
    assert_eq!(to_pascal_case("  _-  "), "");
}

#[test]
fn camel_case_of_non_ascii_first_letter() {
    assert_eq!(to_camel_case("ábaco-azul"), "ábacoAzul");
}

#[test]
fn kebab_case_is_idempotent_on_examples() {
    for input in [
        "",
        "   ",
        "nav bar",
        "Nav_Bar  Item",
        "already-kebab-case",
        "_user_name_",
        "usuário perfil",
        "Mixed_Case\tTabs",
    ] {
        let once = to_kebab_case(input);
        assert_eq!(to_kebab_case(&once), once);
    }
}

#[test]
fn kebab_case_splits_on_unicode_whitespace() {
    assert_eq!(to_kebab_case("a\u{00A0}b\u{3000}C"), "a-b-c");
}

#[test]
fn pascal_case_splits_before_uppercase_only_after_a_letter() {
    assert_eq!(to_pascal_case("navBarItem"), "NavBarItem");
    assert_eq!(to_pascal_case("ABC"), "ABC");
    assert_eq!(to_pascal_case("aBCd"), "ABCd");
}

#[test]
fn substitution_names_of_the_convention_table() {
    assert_eq!(generate_template_name("services", "cat-list"), "CatListService");
    assert_eq!(generate_template_name("hooks", "use-cats"), "Cats");
    assert_eq!(generate_template_name("types", "user-data"), "UserDataType");
    assert_eq!(generate_template_name("containers", "cat-list"), "CatList");
    assert_eq!(generate_template_name("screens", "cat-list"), "CatList");
    assert_eq!(generate_template_name("pages", "cat-list"), "CatList");
    assert_eq!(generate_template_name("components", "use-cats"), "UseCats");
}

#[test]
fn names_with_unicode_letters_and_digits_are_valid() {
    assert!(is_valid_name("página2"));
    assert!(is_valid_name("名前"));
    assert!(!is_valid_name("tab\tname"));
}
