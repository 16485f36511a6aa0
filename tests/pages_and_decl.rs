use ratatui_recipe::decl::{check_page_declaration, get_enum, get_pages_variants, DeclError, PageDecl, VariantFields};
use ratatui_recipe::pages::{
    list_response, AppPageId, AppPages, CounterScreen, DemoPageId, GlobalState, HomeScreen, KeyPress, ListMove,
};
use ratatui_recipe::router::{Router, RouterAction};

#[test]
fn template_home_exits_on_escape() {
    let h = HomeScreen::default();
    assert_eq!(h.on_key(Some(KeyPress::Esc)), vec![RouterAction::EXIT, RouterAction::REDRAW]);
    assert_eq!(h.on_key(Some(KeyPress::Char('x'))), vec![RouterAction::REDRAW]);
    assert!(h.on_key(None).is_empty());
}

#[test]
fn template_dispatcher_defaults_to_home() {
    assert!(matches!(AppPages::default(), AppPages::Home(HomeScreen)));
    assert_eq!(AppPages::new(AppPageId::Home).page_id(), AppPageId::Home);
    let _ = GlobalState::default();
}

#[test]
fn counter_saturates_both_ways() {
    let mut c = CounterScreen::default();
    assert_eq!(c.on_key(Some(KeyPress::Down)), vec![RouterAction::REDRAW]);
    assert_eq!(c.counter, 0);
    c.on_key(Some(KeyPress::Up));
    c.on_key(Some(KeyPress::Up));
    assert_eq!(c.counter, 2);
    c.counter = u32::MAX;
    c.on_key(Some(KeyPress::Up));
    assert_eq!(c.counter, u32::MAX);
}

#[test]
fn counter_enter_opens_list_and_q_exits() {
    let mut c = CounterScreen::default();
    assert_eq!(
        c.on_key(Some(KeyPress::Enter)),
        vec![RouterAction::PUSH(DemoPageId::List), RouterAction::REDRAW]
    );
    assert_eq!(c.on_key(Some(KeyPress::Char('q'))), vec![RouterAction::EXIT, RouterAction::REDRAW]);
    assert!(c.on_key(None).is_empty());
}

#[test]
fn list_keys_move_selection_or_navigate() {
    assert_eq!(list_response(Some(KeyPress::Up)), (Some(ListMove::Previous), vec![RouterAction::REDRAW]));
    assert_eq!(list_response(Some(KeyPress::PageDown)), (Some(ListMove::Last), vec![RouterAction::REDRAW]));
    assert_eq!(
        list_response(Some(KeyPress::Enter)),
        (None, vec![RouterAction::BACK, RouterAction::REDRAW])
    );
    assert_eq!(list_response(None), (None, vec![]));
}

#[test]
fn declaration_must_be_an_enum() {
    assert_eq!(check_page_declaration(&PageDecl::Struct), Err(DeclError::NotAnEnum));
    assert_eq!(get_enum(&PageDecl::Union), Err(DeclError::NotAnEnum));
}

#[test]
fn declaration_variants_need_one_unnamed_field() {
    let ok = vec![VariantFields::Unnamed(1), VariantFields::Unnamed(1)];
    assert_eq!(get_pages_variants(&ok), Ok(2));
    let bad = vec![
        VariantFields::Unnamed(1),
        VariantFields::Unnamed(2),
        VariantFields::Unit,
    ];
    assert_eq!(check_page_declaration(&PageDecl::Enum(bad)), Err(DeclError::BadVariant(1)));
    assert_eq!(get_pages_variants(&vec![VariantFields::Named(1)]), Err(DeclError::BadVariant(0)));
    assert_eq!(check_page_declaration(&PageDecl::Enum(vec![])), Ok(0));
}

#[test]
fn router_sends_in_emission_order() {
    let (tx, mut rx) = tokio::sync::mpsc::unbounded_channel();
    let router = Router::new(tx);
    let other = router.clone();
    router.push(DemoPageId::List);
    other.replace(DemoPageId::Home);
    router.back();
    router.clear();
    router.restart();
    router.redraw();
    router.exit();
    let mut got = Vec::new();
    while let Ok(a) = rx.try_recv() {
        got.push(a);
    }
    assert_eq!(
        got,
        vec![
            RouterAction::PUSH(DemoPageId::List),
            RouterAction::REPLACE(DemoPageId::Home),
            RouterAction::BACK,
            RouterAction::CLEAR,
            RouterAction::RESTART,
            RouterAction::REDRAW,
            RouterAction::EXIT,
        ]
    );
}

#[test]
fn router_ignores_a_closed_channel() {
    let (tx, rx) = tokio::sync::mpsc::unbounded_channel::<RouterAction<DemoPageId>>();
    drop(rx);
    let router = Router::new(tx);
    router.exit();
    router.push(DemoPageId::Home);
}
