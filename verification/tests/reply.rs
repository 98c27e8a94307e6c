use web_demo::reply::{Listing, Page, SampleEntity};

#[test]
fn a_rendered_page_is_sent_as_it_is() {
    let page = Page::from_rendering(Ok("<h1>Hello, Ann!</h1>".to_string()));
    assert_eq!(page, Page::Html("<h1>Hello, Ann!</h1>".to_string()));
    assert_eq!(page.status_code(), 200);
}

#[test]
fn an_empty_page_is_still_a_page() {
    let page = Page::from_rendering(Ok(String::new()));
    assert_eq!(page, Page::Html(String::new()));
    assert_eq!(page.status_code(), 200);
}

#[test]
fn a_rendering_failure_is_reported_with_its_reason() {
    let page = Page::from_rendering(Err("formatting error".to_string()));
    assert_eq!(
        page,
        Page::Failure("Failed to render template. Error: formatting error".to_string())
    );
    assert_eq!(page.status_code(), 500);
}

#[test]
fn a_rendering_failure_without_a_reason_keeps_the_lead() {
    let page = Page::from_rendering(Err(String::new()));
    assert_eq!(page, Page::Failure("Failed to render template. Error: ".to_string()));
}

#[test]
fn fetched_rows_are_listed_in_their_order() {
    let rows = vec![
        SampleEntity { id: 2, name: Some("two".to_string()) },
        SampleEntity { id: -1, name: None },
        SampleEntity { id: 2, name: Some(String::new()) },
    ];
    let listing = Listing::from_query::<String>(Ok(rows.clone()));
    assert_eq!(listing, Listing::Rows(rows));
    assert_eq!(listing.status_code(), 200);
}

#[test]
fn no_rows_are_an_empty_listing() {
    let listing = Listing::from_query::<String>(Ok(Vec::new()));
    assert_eq!(listing, Listing::Rows(Vec::new()));
    assert_eq!(listing.status_code(), 200);
}

#[test]
fn a_failed_query_is_a_server_error_whatever_the_reason() {
    let listing = Listing::from_query(Err("connection refused"));
    assert_eq!(listing, Listing::Failure);
    assert_eq!(listing.status_code(), 500);
    assert_eq!(Listing::from_query(Err(17)), Listing::Failure);
}
