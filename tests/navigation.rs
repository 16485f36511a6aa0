use ratatui_recipe::nav::{Navigator, PageOrigin, Step};
use ratatui_recipe::router::RouterAction;

/// A page stack driven the way the loop drives it, recording every hook call.
struct Harness {
    nav: Navigator<&'static str>,
    pages: Vec<&'static str>,
    log: Vec<String>,
}

fn name_of(o: PageOrigin<&'static str>) -> &'static str {
    match o {
        PageOrigin::Initial => "Home",
        PageOrigin::Named(n) => n,
    }
}

impl Harness {
    fn perform(&mut self, steps: Vec<Step<&'static str>>) {
        for step in steps {
            match step {
                Step::Pause => self.log.push(format!("{}.on_pause", self.pages.last().unwrap())),
                Step::Resume => self.log.push(format!("{}.on_resume", self.pages.last().unwrap())),
                Step::ExitTop => {
                    let p = self.pages.pop().unwrap();
                    self.log.push(format!("{}.on_exit", p));
                }
                Step::ExitBelowTop => {
                    let p = self.pages.remove(self.pages.len() - 2);
                    self.log.push(format!("{}.on_exit", p));
                }
                Step::Enter(o) => {
                    let p = name_of(o);
                    self.log.push(format!("{}.on_enter", p));
                    self.pages.push(p);
                }
            }
        }
    }

    fn start() -> Harness {
        let (nav, steps) = Navigator::start();
        let mut h = Harness { nav, pages: Vec::new(), log: Vec::new() };
        h.perform(steps);
        h
    }

    fn with(names: &[&'static str]) -> Harness {
        let mut h = Harness::start();
        for n in &names[1..] {
            h.act(RouterAction::PUSH(*n));
        }
        h.log.clear();
        h.nav.take_draw();
        h
    }

    fn act(&mut self, a: RouterAction<&'static str>) {
        let steps = self.nav.apply(a);
        self.perform(steps);
        assert_eq!(self.nav.len(), self.pages.len());
    }
}

#[test]
fn start_enters_default_page_and_owes_draw() {
    let h = Harness::start();
    assert_eq!(h.pages, vec!["Home"]);
    assert_eq!(h.log, vec!["Home.on_enter"]);
    assert!(h.nav.is_dirty());
    assert_eq!(h.nav.current(), Some(PageOrigin::Initial));
}

#[test]
fn push_pauses_then_enters() {
    let mut h = Harness::with(&["Home"]);
    assert!(!h.nav.is_dirty());
    h.act(RouterAction::PUSH("List"));
    assert_eq!(h.pages, vec!["Home", "List"]);
    assert_eq!(h.log, vec!["Home.on_pause", "List.on_enter"]);
    assert!(h.nav.is_dirty());
    assert_eq!(h.nav.current(), Some(PageOrigin::Named("List")));
}

#[test]
fn back_exits_then_resumes() {
    let mut h = Harness::with(&["Home", "List"]);
    h.act(RouterAction::BACK);
    assert_eq!(h.pages, vec!["Home"]);
    assert_eq!(h.log, vec!["List.on_exit", "Home.on_resume"]);
    assert!(h.nav.is_dirty());
}

#[test]
fn back_on_single_page_is_silent() {
    let mut h = Harness::with(&["Home"]);
    h.act(RouterAction::BACK);
    assert_eq!(h.pages, vec!["Home"]);
    assert!(h.log.is_empty());
    assert!(!h.nav.is_dirty());
    h.nav.note_input(true);
    h.act(RouterAction::BACK);
    assert!(h.nav.is_dirty());
}

#[test]
fn clear_keeps_current_page_and_exits_rest_top_down() {
    let mut h = Harness::with(&["Home", "List", "Detail"]);
    h.act(RouterAction::CLEAR);
    assert_eq!(h.nav.len(), 1);
    assert_eq!(h.pages, vec!["Detail"]);
    assert_eq!(h.log, vec!["List.on_exit", "Home.on_exit"]);
    assert!(h.nav.is_dirty());
}

#[test]
fn clear_on_single_page_calls_no_hook() {
    let mut h = Harness::with(&["Home"]);
    h.act(RouterAction::CLEAR);
    assert_eq!(h.pages, vec!["Home"]);
    assert!(h.log.is_empty());
}

#[test]
fn exit_exits_every_page_top_down() {
    let mut h = Harness::with(&["Home", "List"]);
    h.act(RouterAction::EXIT);
    assert!(h.pages.is_empty());
    assert_eq!(h.log, vec!["List.on_exit", "Home.on_exit"]);
    assert!(!h.nav.is_running());
    assert_eq!(h.nav.current(), None);
}

#[test]
fn replace_exits_then_enters() {
    let mut h = Harness::with(&["Home", "List"]);
    h.act(RouterAction::REPLACE("Detail"));
    assert_eq!(h.pages, vec!["Home", "Detail"]);
    assert_eq!(h.log, vec!["List.on_exit", "Detail.on_enter"]);
}

#[test]
fn restart_leaves_one_default_page() {
    let mut h = Harness::with(&["Home", "List", "Detail"]);
    h.act(RouterAction::RESTART);
    assert_eq!(h.pages, vec!["Home"]);
    assert_eq!(
        h.log,
        vec!["Detail.on_exit", "List.on_exit", "Home.on_exit", "Home.on_enter"]
    );
    assert_eq!(h.nav.current(), Some(PageOrigin::Initial));
}

#[test]
fn stack_lengths_over_a_sequence() {
    let mut h = Harness::with(&["Home"]);
    let mut len = 1;
    let script = [
        RouterAction::PUSH("A"),
        RouterAction::PUSH("B"),
        RouterAction::REPLACE("C"),
        RouterAction::BACK,
        RouterAction::BACK,
        RouterAction::BACK,
        RouterAction::PUSH("D"),
        RouterAction::REDRAW,
        RouterAction::CLEAR,
        RouterAction::PUSH("E"),
        RouterAction::RESTART,
    ];
    for a in script {
        let expected = match a {
            RouterAction::PUSH(_) => len + 1,
            RouterAction::REPLACE(_) | RouterAction::REDRAW => len,
            RouterAction::BACK => std::cmp::max(len - 1, 1),
            RouterAction::CLEAR | RouterAction::RESTART => 1,
            RouterAction::EXIT => 0,
        };
        h.act(a);
        len = expected;
        assert_eq!(h.nav.len(), len);
    }
    h.act(RouterAction::EXIT);
    assert_eq!(h.nav.len(), 0);
}

#[test]
fn redraws_coalesce_into_one_draw() {
    let mut h = Harness::with(&["Home"]);
    for _ in 0..5 {
        h.act(RouterAction::REDRAW);
    }
    assert!(h.nav.take_draw());
    assert!(!h.nav.take_draw());
}

#[test]
fn resize_always_owes_a_draw() {
    let mut h = Harness::with(&["Home"]);
    h.nav.note_input(false);
    assert!(!h.nav.is_dirty());
    h.nav.note_input(true);
    assert!(h.nav.is_dirty());
    h.nav.note_input(true);
    assert!(h.nav.is_dirty());
    h.nav.note_input(false);
    assert!(h.nav.is_dirty());
}
