use klient::{Config, Encoding, Klient, KlientError, Method, Operation, Request, COOKIE_STORE};
use reqwest::blocking::multipart::{Form, Part};
use reqwest::blocking::Response;

#[derive(Debug, Clone, PartialEq, Eq)]
struct AccountCreationInput {
    username: String,
    email: Option<String>,
    password: String,
}

#[derive(Debug, Clone, PartialEq, Eq)]
struct AccountLoginInput {
    username: String,
    password: String,
}

#[derive(Debug, Clone, PartialEq, Eq)]
struct SubscribeNewsletterInput {
    email: String,
}

/// What a server that answers with `status` makes the transport return.
fn answer(status: u16) -> Result<Response, reqwest::Error> {
    let response = http::Response::builder().status(status).body("").unwrap();
    Ok(Response::from(response))
}

fn handle() -> Klient {
    Klient {
        client: Klient::new_client(Klient::client_options().build()).unwrap(),
        accounts_endpoint: Some("http://localhost:3000/accounts".to_string()),
        login_endpoint: Some("http://localhost:3000/login".to_string()),
        blog_endpoint: Some("http://localhost:3000/blog".to_string()),
        newsletter_endpoint: Some("http://localhost:3000/newsletter".to_string()),
    }
}

#[test]
fn test_klient() {
    let client = Klient::new_client(Klient::client_options().build()).unwrap();
    let klient = Klient {
        client,
        accounts_endpoint: Some("http://localhost:3000/accounts".to_string()),
        login_endpoint: Some("http://localhost:3000/login".to_string()),
        blog_endpoint: Some("http://localhost:3000/blog".to_string()),
        newsletter_endpoint: Some("http://localhost:3000/newsletter".to_string()),
    };

    // create admin new account
    let account = AccountCreationInput {
        username: "admin".to_string(),
        email: Some("admin@example.com".to_string()),
        password: "1234567890".to_string(),
    };

    let request = klient.create_account(account.clone()).unwrap();
    assert_eq!(request.url, "http://localhost:3000/accounts");
    assert_eq!(request.payload, account);
    if let Ok(_res) = request.operation.finish(answer(201)) {
        assert!(true);
    } else {
        panic!("Error creating account");
    }

    let login_info = AccountLoginInput {
        username: "admin".to_string(),
        password: "1234567890".to_string(),
    };

    let request = klient.login(login_info.clone()).unwrap();
    assert_eq!(request.url, "http://localhost:3000/login");
    assert_eq!(request.payload, login_info);
    if let Ok(_res) = request.operation.finish(answer(200)) {
        assert!(true);
    } else {
        panic!("Error with login");
    }

    let form = Form::new()
        .text("title", "Test title")
        .text("subtitle", "Test subtitle")
        .part("cover", Part::bytes(vec![0x89, b'P', b'N', b'G']).file_name("test.png"))
        .text("content", "Test Content");

    let request = klient.blog_post(form).unwrap();
    assert_eq!(request.url, "http://localhost:3000/blog");
    assert_eq!(request.encoding, Encoding::Multipart);
    if let Ok(_res) = request.operation.finish(answer(201)) {
        assert!(true);
    } else {
        panic!("Error posting blog");
    }

    let newsletter_input = SubscribeNewsletterInput {
        email: "admin@example.com".to_string(),
    };

    let request = klient.subscribe_newsletter(newsletter_input.clone()).unwrap();
    assert_eq!(request.url, "http://localhost:3000/newsletter");
    assert_eq!(request.payload, newsletter_input);
    if let Ok(_res) = request.operation.finish(answer(201)) {
        assert!(true);
    } else {
        panic!("Error posting blog");
    }
}

fn configuration(cookie_store: bool) -> Config {
    Config {
        accounts_endpoint: Some("http://localhost:3000/accounts".to_string()),
        login_endpoint: None,
        blog_endpoint: Some("not an address".to_string()),
        newsletter_endpoint: Some(String::new()),
        cookie_store,
    }
}

#[test]
fn handle_takes_the_addresses_of_its_configuration_as_they_are() {
    let config = configuration(false);
    let built = config.transport_options().build();
    assert!(built.is_ok());
    match Klient::with_transport(config, built) {
        Ok(klient) => {
            assert_eq!(
                klient.accounts_endpoint,
                Some("http://localhost:3000/accounts".to_string())
            );
            assert_eq!(klient.login_endpoint, None);
            assert_eq!(klient.blog_endpoint, Some("not an address".to_string()));
            assert_eq!(klient.newsletter_endpoint, Some(String::new()));
            assert!(klient.login(()).is_none());
            assert_eq!(
                klient.create_account(()).unwrap().url,
                "http://localhost:3000/accounts"
            );
        }
        Err(_) => panic!("the transport was built, and the handle was not made"),
    }
}

#[test]
fn handle_is_not_made_where_the_transport_was_not_built() {
    let config = configuration(true);
    let built = config.transport_options().user_agent("two\nlines").build();
    assert!(built.is_err());
    assert!(matches!(
        Klient::with_transport(config, built),
        Err(KlientError::Client)
    ));
}

#[test]
fn handle_is_made_with_or_without_a_cookie_store() {
    for cookie_store in [true, false] {
        let config = configuration(cookie_store);
        let built = config.transport_options().build();
        let klient = Klient::with_transport(config, built).unwrap();
        assert_eq!(
            klient.endpoint(Operation::CreateAccount),
            Some(&"http://localhost:3000/accounts".to_string())
        );
    }
}

#[test]
fn transport_options_ask_for_the_cookie_store_of_the_configuration() {
    let with = format!("{:?}", configuration(true).transport_options());
    let without = format!("{:?}", configuration(false).transport_options());
    assert!(with.contains("cookie_store: true"));
    assert!(!without.contains("cookie_store"));
}

#[test]
fn client_options_ask_for_a_cookie_store() {
    assert!(COOKIE_STORE);
    let options = format!("{:?}", Klient::client_options());
    assert!(options.contains("cookie_store: true"));
}

#[test]
fn every_operation_is_posted() {
    assert_eq!(Operation::CreateAccount.method(), Method::Post);
    assert_eq!(Operation::Login.method(), Method::Post);
    assert_eq!(Operation::BlogPost.method(), Method::Post);
    assert_eq!(Operation::SubscribeNewsletter.method(), Method::Post);
}

#[test]
fn only_the_blog_post_is_a_multipart_form() {
    assert_eq!(Operation::CreateAccount.encoding(), Encoding::Json);
    assert_eq!(Operation::Login.encoding(), Encoding::Json);
    assert_eq!(Operation::BlogPost.encoding(), Encoding::Multipart);
    assert_eq!(Operation::SubscribeNewsletter.encoding(), Encoding::Json);
}

#[test]
fn request_holds_what_the_operation_and_the_handle_fix() {
    let klient = handle();
    assert_eq!(
        klient.request(Operation::CreateAccount, 17u8),
        Some(Request {
            operation: Operation::CreateAccount,
            method: Method::Post,
            url: "http://localhost:3000/accounts".to_string(),
            encoding: Encoding::Json,
            payload: 17u8,
        })
    );
    assert_eq!(
        klient.request(Operation::Login, "credentials"),
        Some(Request {
            operation: Operation::Login,
            method: Method::Post,
            url: "http://localhost:3000/login".to_string(),
            encoding: Encoding::Json,
            payload: "credentials",
        })
    );
    let request = klient.request(Operation::BlogPost, "form").unwrap();
    assert_eq!(request.operation, Operation::BlogPost);
    assert_eq!(request.method, Method::Post);
    assert_eq!(request.url, "http://localhost:3000/blog");
    assert_eq!(request.encoding, Encoding::Multipart);
    assert_eq!(request.payload, "form");
}

#[test]
fn named_operations_make_the_request_of_their_operation() {
    let klient = handle();
    assert_eq!(klient.create_account(1u8), klient.request(Operation::CreateAccount, 1u8));
    assert_eq!(klient.login(2u8), klient.request(Operation::Login, 2u8));
    let posted = klient.blog_post(Form::new().text("title", "Test title")).unwrap();
    assert_eq!(posted.operation, Operation::BlogPost);
    assert_eq!(posted.method, Method::Post);
    assert_eq!(posted.url, "http://localhost:3000/blog");
    assert_eq!(posted.encoding, Encoding::Multipart);
    assert_eq!(
        klient.subscribe_newsletter(4u8),
        klient.request(Operation::SubscribeNewsletter, 4u8)
    );
    assert_eq!(klient.login(2u8).unwrap().operation, Operation::Login);
    assert_eq!(klient.login(2u8).unwrap().url, "http://localhost:3000/login");
    assert_eq!(
        klient.subscribe_newsletter(4u8).unwrap().url,
        "http://localhost:3000/newsletter"
    );
}

#[test]
fn endpoint_is_the_address_of_the_operation() {
    let klient = handle();
    assert_eq!(
        klient.endpoint(Operation::CreateAccount),
        Some(&"http://localhost:3000/accounts".to_string())
    );
    assert_eq!(
        klient.endpoint(Operation::Login),
        Some(&"http://localhost:3000/login".to_string())
    );
    assert_eq!(
        klient.endpoint(Operation::BlogPost),
        Some(&"http://localhost:3000/blog".to_string())
    );
    assert_eq!(
        klient.endpoint(Operation::SubscribeNewsletter),
        Some(&"http://localhost:3000/newsletter".to_string())
    );
}

#[test]
fn operation_that_is_not_enabled_makes_no_request() {
    let klient = Klient {
        client: Klient::new_client(Klient::client_options().build()).unwrap(),
        accounts_endpoint: None,
        login_endpoint: Some("http://localhost:3000/login".to_string()),
        blog_endpoint: None,
        newsletter_endpoint: None,
    };
    assert_eq!(klient.endpoint(Operation::CreateAccount), None);
    assert_eq!(klient.create_account(1u8), None);
    assert!(klient.blog_post(Form::new()).is_none());
    assert_eq!(klient.subscribe_newsletter(1u8), None);
    assert_eq!(klient.request(Operation::BlogPost, 1u8), None);
    assert!(klient.login(1u8).is_some());
}

#[test]
fn malformed_address_is_not_examined() {
    let klient = Klient {
        client: Klient::new_client(Klient::client_options().build()).unwrap(),
        accounts_endpoint: Some("not an address".to_string()),
        login_endpoint: Some(String::new()),
        blog_endpoint: None,
        newsletter_endpoint: None,
    };
    assert_eq!(klient.create_account(()).unwrap().url, "not an address");
    assert_eq!(klient.login(()).unwrap().url, "");
}

#[test]
fn payload_has_no_part_in_the_request_but_to_be_carried() {
    let klient = handle();
    let one = klient.create_account("one").unwrap();
    let other = klient.create_account("other").unwrap();
    assert_eq!(one.payload, "one");
    assert_eq!(other.payload, "other");
    assert_eq!(one.url, other.url);
    assert_eq!(one.method, other.method);
    assert_eq!(one.encoding, other.encoding);
    assert_eq!(one.operation, other.operation);
}

#[test]
fn form_with_a_file_that_cannot_be_read_is_not_made() {
    let form = Form::new()
        .text("title", "Test title")
        .file("cover", "./no-such-directory/no-such-file.png");
    assert!(form.is_err());
}
