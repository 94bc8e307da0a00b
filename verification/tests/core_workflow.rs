use gistr::gist::{GistFilePayload, GistPayload};
use gistr::http::{HttpRequest, Method};
use gistr::selector::{
    choose_file, file_labels, file_selection_action, filter_gists, gist_label, gist_labels,
    gist_selection_action, select_gist,
};
use gistr::token::{read_token_from_file, write_token_to_file, TokenStore};
use gistr::workflow::{
    complete_login, create_gist, create_gist_outcome, download_save_plan, login, start_list_gists,
    Action, FileRead, LoginOptions, LoginOutcome,
};

fn file(name: &str, raw_url: &str) -> GistFilePayload {
    GistFilePayload {
        filename: name.to_string(),
        raw_url: raw_url.to_string(),
        language: None,
        size: 1,
    }
}

fn gist(description: &str, public: bool, files: Vec<GistFilePayload>) -> GistPayload {
    GistPayload {
        id: "id0".to_string(),
        public,
        created_at: "2020-01-01T00:00:00Z".to_string(),
        description: description.to_string(),
        files,
    }
}

fn store_with(token: &str) -> TokenStore {
    TokenStore {
        contents: Some(token.to_string()),
    }
}

#[test]
fn token_round_trip_plain() {
    let mut store = TokenStore { contents: None };
    write_token_to_file(&mut store, "abc123".to_string());
    let back = read_token_from_file(&store).unwrap();
    assert_eq!(back, "abc123".to_string());
}

#[test]
fn token_round_trip_padded_comes_back_trimmed() {
    let mut store = TokenStore { contents: None };
    write_token_to_file(&mut store, "  \tabc123\r\n".to_string());
    let back = read_token_from_file(&store).unwrap();
    assert_eq!(back, "abc123".to_string());
}

#[test]
fn token_read_of_blank_file_is_empty() {
    let store = store_with(" \n\t ");
    assert_eq!(read_token_from_file(&store).unwrap(), "".to_string());
}

#[test]
fn token_read_without_file_fails() {
    let store = TokenStore { contents: None };
    assert!(read_token_from_file(&store).is_err());
}

#[test]
fn label_prefers_description() {
    let g = gist("my gist", false, vec![file("a.txt", "u")]);
    assert_eq!(gist_label(&g), "my gist".to_string());
}

#[test]
fn label_falls_back_to_first_filename() {
    let g = gist("", false, vec![file("first.txt", "u"), file("second.txt", "u")]);
    assert_eq!(gist_label(&g), "first.txt".to_string());
}

#[test]
fn label_of_empty_gist_is_empty() {
    let g = gist("", false, vec![]);
    assert_eq!(gist_label(&g), "".to_string());
}

#[test]
fn labels_of_empty_listing_are_empty() {
    let labels = gist_labels(&vec![]);
    assert_eq!(labels.len(), 0);
    match gist_selection_action(&vec![]) {
        Action::Select(labels) => assert_eq!(labels.len(), 0),
        _ => panic!("expected a selection"),
    }
}

#[test]
fn empty_listing_selects_nothing() {
    assert!(select_gist(vec![], None).is_none());
    assert!(select_gist(vec![], Some(0)).is_none());
}

#[test]
fn select_gist_takes_the_chosen_one() {
    let gists = vec![gist("a", false, vec![]), gist("b", false, vec![])];
    let chosen = select_gist(gists, Some(1)).unwrap();
    assert_eq!(chosen.description, "b".to_string());
}

#[test]
fn aborted_selection_is_none() {
    let gists = vec![gist("a", false, vec![])];
    assert!(select_gist(gists, None).is_none());
    let g = gist("a", false, vec![file("a.txt", "u")]);
    assert!(choose_file(&g, None).is_none());
}

#[test]
fn filter_keeps_public_gists_in_order() {
    let gists = vec![
        gist("a", true, vec![]),
        gist("b", false, vec![]),
        gist("c", true, vec![]),
    ];
    let kept = filter_gists(gists, true);
    assert_eq!(kept.len(), 2);
    assert_eq!(kept[0].description, "a".to_string());
    assert_eq!(kept[1].description, "c".to_string());
}

#[test]
fn filter_without_flag_keeps_everything() {
    let gists = vec![gist("a", true, vec![]), gist("b", false, vec![])];
    let kept = filter_gists(gists, false);
    assert_eq!(kept.len(), 2);
    assert_eq!(kept[1].description, "b".to_string());
}

#[test]
fn file_labels_are_the_filenames() {
    let g = gist("d", false, vec![file("a.txt", "u1"), file("b.txt", "u2")]);
    let labels = file_labels(&g);
    assert_eq!(labels, vec!["a.txt".to_string(), "b.txt".to_string()]);
    match file_selection_action(&g) {
        Action::Select(labels) => assert_eq!(labels.len(), 2),
        _ => panic!("expected a selection"),
    }
}

#[test]
fn get_file_payload_finds_the_named_file() {
    let g = gist("d", false, vec![file("a.txt", "u1"), file("b.txt", "u2")]);
    let found = g.get_file_payload("b.txt").unwrap();
    assert_eq!(found.raw_url, "u2".to_string());
    assert!(g.get_file_payload("missing.txt").is_none());
}

#[test]
fn get_file_payload_takes_the_first_of_a_name() {
    let g = gist("d", false, vec![file("a.txt", "u1"), file("a.txt", "u2")]);
    let found = g.get_file_payload("a.txt").unwrap();
    assert_eq!(found.raw_url, "u1".to_string());
}

#[test]
fn choose_file_resolves_the_picked_index() {
    let g = gist("d", false, vec![file("a.txt", "u1"), file("notes.txt", "u2")]);
    let picked = choose_file(&g, Some(1)).unwrap();
    assert_eq!(picked.filename, "notes.txt".to_string());
    assert_eq!(picked.raw_url, "u2".to_string());
    assert!(choose_file(&g, Some(2)).is_none());
}

#[test]
fn create_without_token_aborts_before_anything_else() {
    let store = TokenStore { contents: None };
    let action = create_gist(
        &store,
        Some("hello".to_string()),
        false,
        Some(vec![FileRead {
            name: "a.txt".to_string(),
            content: Some("x".to_string()),
        }]),
    );
    assert!(matches!(action, Action::AbortTokenMissing));
}

#[test]
fn create_without_description_or_files_aborts_benignly() {
    let store = store_with("tok");
    let action = create_gist(&store, None, false, Some(vec![]));
    assert!(matches!(action, Action::AbortMissingInput));
    let action = create_gist(&store, Some("hello".to_string()), false, None);
    assert!(matches!(action, Action::AbortMissingInput));
}

#[test]
fn create_with_unreadable_file_fails_without_any_request() {
    let store = store_with("tok");
    let action = create_gist(
        &store,
        Some("hello".to_string()),
        false,
        Some(vec![FileRead {
            name: "missing.txt".to_string(),
            content: None,
        }]),
    );
    assert!(matches!(action, Action::FailLocalIo(_)));
}

#[test]
fn create_builds_the_exact_post() {
    let store = store_with("tok");
    let action = create_gist(
        &store,
        Some("hello".to_string()),
        false,
        Some(vec![FileRead {
            name: "a.txt".to_string(),
            content: Some("x".to_string()),
        }]),
    );
    let req = match action {
        Action::Request(req) => req,
        _ => panic!("expected the create request"),
    };
    assert!(matches!(req.method, Method::Post));
    assert_eq!(req.url, "https://api.github.com/gists".to_string());
    assert_eq!(req.auth_token, Some("tok".to_string()));
    assert_eq!(req.basic_auth, None);
    assert_eq!(req.otp, None);
    assert_eq!(
        req.body,
        Some(
            "{\"description\":\"hello\",\"public\":false,\"files\":{\"a.txt\":{\"content\":\"x\"}}}"
                .to_string()
        )
    );
}

#[test]
fn create_never_selects_and_reads_the_token_once() {
    let store = store_with("  tok  ");
    let action = create_gist(
        &store,
        Some("d".to_string()),
        true,
        Some(vec![FileRead {
            name: "a.txt".to_string(),
            content: Some("x".to_string()),
        }]),
    );
    match action {
        Action::Select(_) => panic!("the create path never presents a selection"),
        Action::Request(req) => {
            assert_eq!(req.auth_token, Some("tok".to_string()));
        }
        _ => panic!("expected the create request"),
    }
}

#[test]
fn create_body_lists_files_in_order_with_commas() {
    let store = store_with("tok");
    let action = create_gist(
        &store,
        Some("two".to_string()),
        true,
        Some(vec![
            FileRead {
                name: "a.txt".to_string(),
                content: Some("1".to_string()),
            },
            FileRead {
                name: "b.txt".to_string(),
                content: Some("2".to_string()),
            },
        ]),
    );
    let req = match action {
        Action::Request(req) => req,
        _ => panic!("expected the create request"),
    };
    assert_eq!(
        req.body,
        Some(
            "{\"description\":\"two\",\"public\":true,\"files\":{\"a.txt\":{\"content\":\"1\"},\"b.txt\":{\"content\":\"2\"}}}"
                .to_string()
        )
    );
}

#[test]
fn create_body_escapes_special_characters() {
    let store = store_with("tok");
    let action = create_gist(
        &store,
        Some("say \"hi\"\\\n".to_string()),
        false,
        Some(vec![FileRead {
            name: "a.txt".to_string(),
            content: Some("tab\there\u{1}".to_string()),
        }]),
    );
    let req = match action {
        Action::Request(req) => req,
        _ => panic!("expected the create request"),
    };
    assert_eq!(
        req.body,
        Some(
            "{\"description\":\"say \\\"hi\\\"\\\\\\n\",\"public\":false,\"files\":{\"a.txt\":{\"content\":\"tab\\there\\u0001\"}}}"
                .to_string()
        )
    );
}

#[test]
fn create_outcome_succeeds_only_on_201_with_a_url() {
    let ok = create_gist_outcome(201, Some("https://gist.example/1".to_string()));
    assert_eq!(ok.unwrap(), "https://gist.example/1".to_string());
    assert!(create_gist_outcome(404, Some("https://gist.example/1".to_string())).is_err());
    assert!(create_gist_outcome(201, None).is_err());
    assert!(create_gist_outcome(500, None).is_err());
}

#[test]
fn listing_needs_a_token() {
    let action = start_list_gists(&TokenStore { contents: None });
    assert!(matches!(action, Action::AbortTokenMissing));
}

#[test]
fn listing_asks_for_the_first_hundred() {
    let action = start_list_gists(&store_with("tok\n"));
    let req = match action {
        Action::Request(req) => req,
        _ => panic!("expected the list request"),
    };
    assert!(matches!(req.method, Method::Get));
    assert_eq!(req.url, "https://api.github.com/gists?per_page=100".to_string());
    assert_eq!(req.auth_token, Some("tok".to_string()));
    assert_eq!(req.body, None);
}

#[test]
fn fetch_is_unauthenticated_and_deterministic() {
    let url = "https://gist.example/raw/notes.txt".to_string();
    let a = gistr::http::fetch_raw_content_request(&url);
    let b = gistr::http::fetch_raw_content_request(&url);
    assert!(matches!(a.method, Method::Get));
    assert_eq!(a.url, url);
    assert_eq!(a.auth_token, None);
    assert_eq!(a.url, b.url);
    assert_eq!(a.auth_token, b.auth_token);
    assert_eq!(a.body, b.body);
    assert_eq!(a.basic_auth, b.basic_auth);
    assert_eq!(a.otp, b.otp);
}

#[test]
fn download_saves_under_the_gist_filename() {
    let f = file("notes.txt", "https://gist.example/raw/notes.txt");
    let (name, content) = download_save_plan(&f, "data".to_string());
    assert_eq!(name, "notes.txt".to_string());
    assert_eq!(content, "data".to_string());
}

#[test]
fn login_builds_a_basic_auth_post() {
    let req: HttpRequest = login(&LoginOptions {
        username: "user".to_string(),
        password: "pass".to_string(),
        two_factor_code: Some("123456".to_string()),
    });
    assert!(matches!(req.method, Method::Post));
    assert_eq!(req.url, "https://api.github.com/authorizations".to_string());
    assert_eq!(req.auth_token, None);
    assert_eq!(req.basic_auth, Some(("user".to_string(), "pass".to_string())));
    assert_eq!(req.otp, Some("123456".to_string()));
    let body = req.body.unwrap();
    assert!(body.starts_with("{\"scopes\":[\"gist\"],\"note\":\"gistr cli tool "));
    assert!(body.ends_with("\",\"note_url\":\"https://github.com/alicanerdogan/gistr\"}"));
}

#[test]
fn login_without_otp_sends_no_code() {
    let req = login(&LoginOptions {
        username: "user".to_string(),
        password: "pass".to_string(),
        two_factor_code: None,
    });
    assert_eq!(req.otp, None);
}

#[test]
fn login_nonces_differ_between_requests() {
    let opts = LoginOptions {
        username: "user".to_string(),
        password: "pass".to_string(),
        two_factor_code: None,
    };
    let a = login(&opts).body.unwrap();
    let b = login(&opts).body.unwrap();
    assert_ne!(a, b);
}

#[test]
fn login_401_stores_nothing() {
    let mut store = store_with("old");
    let outcome = complete_login(&mut store, 401, Some("new".to_string()));
    assert!(matches!(outcome, LoginOutcome::AuthenticationFailed));
    assert_eq!(store.contents, Some("old".to_string()));
}

#[test]
fn login_201_stores_exactly_the_token_field() {
    let mut store = TokenStore { contents: None };
    let outcome = complete_login(&mut store, 201, Some("newtok".to_string()));
    assert!(matches!(outcome, LoginOutcome::TokenStored));
    assert_eq!(store.contents, Some("newtok".to_string()));
    assert_eq!(read_token_from_file(&store).unwrap(), "newtok".to_string());
}

#[test]
fn login_other_statuses_are_fatal_and_store_nothing() {
    let mut store = store_with("old");
    let outcome = complete_login(&mut store, 500, Some("new".to_string()));
    assert!(matches!(outcome, LoginOutcome::Failed(_)));
    assert_eq!(store.contents, Some("old".to_string()));
    let outcome = complete_login(&mut store, 201, None);
    assert!(matches!(outcome, LoginOutcome::Failed(_)));
    assert_eq!(store.contents, Some("old".to_string()));
}

#[test]
fn create_with_no_files_sends_an_empty_files_object() {
    let store = store_with("tok");
    let action = create_gist(&store, Some("d".to_string()), false, Some(vec![]));
    let req = match action {
        Action::Request(req) => req,
        _ => panic!("expected the create request"),
    };
    assert_eq!(
        req.body,
        Some("{\"description\":\"d\",\"public\":false,\"files\":{}}".to_string())
    );
}

#[test]
fn trim_keeps_inner_whitespace() {
    assert_eq!(gistr::token::trim_str("  a b\t"), "a b".to_string());
    assert_eq!(gistr::token::trim_str(""), "".to_string());
    assert_eq!(gistr::token::trim_str("plain"), "plain".to_string());
}

#[test]
fn json_strings_are_quoted_and_escaped() {
    assert_eq!(gistr::json::json_string_of("plain"), "\"plain\"".to_string());
    assert_eq!(
        gistr::json::json_string_of("a\"b\\c\nd\u{1f}"),
        "\"a\\\"b\\\\c\\nd\\u001f\"".to_string()
    );
}

#[test]
fn token_read_trims_unicode_whitespace() {
    let store = store_with("\u{b}\u{a0}tok\u{2028}\u{3000}");
    assert_eq!(read_token_from_file(&store).unwrap(), "tok".to_string());
    let store = store_with("\u{c}\u{85}only\u{1680}");
    assert_eq!(read_token_from_file(&store).unwrap(), "only".to_string());
}

#[test]
fn trim_agrees_with_the_std_trim_on_samples() {
    let samples = [
        "",
        "  a  ",
        "\u{b}\u{c}x\u{85}\u{a0}",
        "\u{1680}\u{2000}y y\u{200a}\u{2028}\u{2029}\u{202f}\u{205f}\u{3000}",
        "inner space kept",
        "\t\r\nabc123\n",
        " \u{a0} ",
    ];
    for s in samples {
        assert_eq!(gistr::token::trim_str(s), s.trim());
    }
}
