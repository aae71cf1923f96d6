use blazebooru::errors::ApiError;
use blazebooru::image::{first_stream_metadata, ImageMetadata, ProbeStream};
use blazebooru::models;
use blazebooru::policy;
use blazebooru::transform;
use blazebooru::vm;
use blazebooru::wiki::screen_wiki_page;

fn sample_db_user() -> models::User {
    models::User {
        id: 3,
        created_at: 1111,
        updated_at: 2222,
        name: "alice".to_string(),
        password_hash: "hash".to_string(),
        rank: 1,
        biography: Some("bio".to_string()),
        css: Some("css".to_string()),
    }
}

#[test]
fn user_profile_conversions() {
    let u = transform::vm_user_from_db(sample_db_user());
    assert_eq!(u.id, 3);
    assert_eq!(u.created_at, 1111);
    assert_eq!(u.name, "alice");
    assert_eq!(u.rank, 1);
    assert_eq!(u.biography.as_deref(), Some("bio"));
    assert_eq!(u.css.as_deref(), Some("css"));

    let p = transform::vm_public_user_from_db(sample_db_user());
    assert_eq!(p.id, 3);
    assert_eq!(p.name, "alice");
    assert_eq!(p.biography.as_deref(), Some("bio"));
}

#[test]
fn update_post_drops_empty_strings() {
    let req = vm::UpdatePost {
        title: Some("".to_string()),
        description: Some("words".to_string()),
        source: None,
        add_tags: vec!["a".to_string()],
        remove_tags: vec![],
    };
    let out = transform::dbm_update_post_from_vm(9, req);
    assert_eq!(out.id, Some(9));
    assert_eq!(out.title, None);
    assert_eq!(out.description.as_deref(), Some("words"));
    assert_eq!(out.source, None);
    assert_eq!(out.add_tags, vec!["a".to_string()]);
    assert!(out.remove_tags.is_empty());
}

#[test]
fn update_user_carries_id() {
    let req = vm::UpdateUser {
        name: Some("bob".to_string()),
        rank: Some(2),
        biography: None,
        css: None,
    };
    let out = transform::dbm_update_user_from_vm(4, req);
    assert_eq!(out.id, Some(4));
    assert_eq!(out.name.as_deref(), Some("bob"));
    assert_eq!(out.rank, Some(2));
    assert_eq!(out.biography, None);
}

#[test]
fn page_info_roundtrip() {
    let db = transform::db_page_info_from_vm(vm::PageInfo { no: 2, start_id: 30 });
    assert_eq!(db.no, Some(2));
    assert_eq!(db.start_id, Some(30));
    let back = transform::vm_page_info_from_db(db);
    assert_eq!(back, vm::PageInfo { no: 2, start_id: 30 });
}

#[test]
fn refresh_token_row_unwraps() {
    let row = models::CreateRefreshTokenResult { token: Some(77), session: Some(8) };
    let out = transform::create_refresh_token_result_from_db(row);
    assert_eq!(out.token, 77);
    assert_eq!(out.session, 8);
}

#[test]
fn tag_and_wiki_conversions() {
    let t = transform::vm_tag_from_db(models::ViewTag {
        id: Some(5),
        tag: Some("landscape".to_string()),
        alias_of_tag: None,
        aliases: Some(vec!["scenery".to_string()]),
        implied_tags: Some(vec![]),
    });
    assert_eq!(t.id, 5);
    assert_eq!(t.tag, "landscape");
    assert_eq!(t.aliases, vec!["scenery".to_string()]);

    let w = transform::vm_wiki_page_from_db(models::WikiPage {
        id: Some(1),
        creator_id: Some(2),
        creator_name: Some("alice".to_string()),
        title: Some("rules".to_string()),
        body: Some("be nice".to_string()),
        locked: Some(false),
        created_at: Some(10),
        revision: Some(1),
        updated_at: Some(10),
        updater_id: None,
        updater_name: None,
        updater_ip: None,
        deleted: Some(false),
        reason: None,
    });
    assert_eq!(w.id, 1);
    assert_eq!(w.title, "rules");
    assert_eq!(w.updater_id, None);

    let nw = transform::db_new_wiki_page_from_vm(vm::NewWikiPage {
        user_id: 2,
        title: "rules".to_string(),
        body: "be nice".to_string(),
        locked: false,
        reason: "initial".to_string(),
    });
    assert_eq!(nw.title, "rules");
    assert_eq!(nw.reason, "initial");

    let uw = transform::db_update_wiki_page_from_vm(vm::UpdateWikiPage {
        id: 1,
        title: "rules".to_string(),
        body: "be nicer".to_string(),
        locked: true,
        deleted: false,
        reason: "tightened".to_string(),
    });
    assert_eq!(uw.id, 1);
    assert!(uw.locked);

    let ut = transform::db_update_tag_from_vm(vm::UpdateTag {
        add_aliases: vec!["x".to_string()],
        remove_aliases: vec![],
        add_implied_tags: vec![],
        remove_implied_tags: vec![],
    });
    assert_eq!(ut.add_aliases, vec!["x".to_string()]);
}

#[test]
fn comment_conversion() {
    let c = transform::vm_comment_from_db(models::PostComment {
        id: 12,
        created_at: 5,
        updated_at: 6,
        user_id: None,
        user_name: None,
        post_id: 3,
        comment: "hello".to_string(),
    });
    assert_eq!(c.id, 12);
    assert_eq!(c.user_id, None);
    assert_eq!(c.comment, "hello");
}

fn editor(id: i32, rank: i16) -> vm::User {
    vm::User {
        id,
        created_at: 0,
        name: "e".to_string(),
        rank,
        biography: None,
        css: None,
    }
}

fn rank_request() -> vm::UpdateUser {
    vm::UpdateUser { name: None, rank: Some(5), biography: None, css: None }
}

#[test]
fn update_user_rules() {
    // editing someone else without rank: refused
    let r = policy::screen_update_user(&editor(1, 0), 2, rank_request());
    assert!(matches!(r, Err(ApiError::Unauthorized)));
    // editing oneself without rank: allowed, but the rank change is dropped
    let r = policy::screen_update_user(&editor(1, 0), 1, rank_request()).expect("self-edit passes");
    assert_eq!(r.rank, None);
    // a ranked editor may change anyone, rank change kept
    let r = policy::screen_update_user(&editor(1, 1), 2, rank_request()).expect("ranked edit passes");
    assert_eq!(r.rank, Some(5));
}

#[test]
fn privileged_actions_need_rank() {
    assert!(matches!(
        policy::authorize_privileged(&editor(1, 0)),
        Err(ApiError::Unauthorized)
    ));
    assert!(policy::authorize_privileged(&editor(1, 1)).is_ok());
}

#[test]
fn registration_gate() {
    let open = vm::Config { max_image_size: 1, require_login: false, allow_registration: true };
    let closed = vm::Config { max_image_size: 1, require_login: false, allow_registration: false };
    assert!(policy::screen_registration(&open).is_ok());
    assert!(matches!(policy::screen_registration(&closed), Err(ApiError::Forbidden)));
}

#[test]
fn wiki_title_must_not_be_empty() {
    let mut page = vm::NewWikiPage {
        user_id: 1,
        title: "".to_string(),
        body: "b".to_string(),
        locked: false,
        reason: "r".to_string(),
    };
    assert!(matches!(policy::validate_new_wiki_page(&page), Err(ApiError::BadRequest)));
    page.title = "t".to_string();
    assert!(policy::validate_new_wiki_page(&page).is_ok());
}

#[test]
fn deleted_wiki_pages_are_withheld() {
    let visible = models::WikiPage {
        id: Some(1),
        creator_id: Some(1),
        creator_name: Some("a".to_string()),
        title: Some("t".to_string()),
        body: Some("b".to_string()),
        locked: Some(false),
        created_at: Some(0),
        revision: Some(1),
        updated_at: Some(0),
        updater_id: None,
        updater_name: None,
        updater_ip: None,
        deleted: Some(false),
        reason: None,
    };
    let mut hidden = visible.clone();
    hidden.deleted = Some(true);
    assert!(matches!(screen_wiki_page(Some(visible)), Ok(Some(_))));
    assert!(matches!(screen_wiki_page(Some(hidden)), Err(ApiError::Forbidden)));
    assert!(matches!(screen_wiki_page(None), Ok(None)));
}

#[test]
fn first_usable_stream_wins() {
    let streams = vec![
        ProbeStream { width: Some(10), height: None },
        ProbeStream { width: None, height: Some(20) },
        ProbeStream { width: Some(640), height: Some(480) },
        ProbeStream { width: Some(1), height: Some(2) },
    ];
    assert_eq!(
        first_stream_metadata(&streams),
        Some(ImageMetadata { width: 640, height: 480 })
    );
}

#[test]
fn no_usable_stream_is_none() {
    assert_eq!(first_stream_metadata(&vec![]), None);
    let streams = vec![ProbeStream { width: Some(10), height: None }];
    assert_eq!(first_stream_metadata(&streams), None);
}

#[test]
fn missing_rows_are_not_found() {
    assert!(policy::require_found(true).is_ok());
    assert!(matches!(policy::require_found(false), Err(ApiError::NotFound)));
    assert_eq!(policy::require_present(Some(3)), Ok(3));
    assert!(matches!(policy::require_present::<i32>(None), Err(ApiError::NotFound)));
}
