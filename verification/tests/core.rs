//! Session lifecycle, downcasting, the named registry and the borrow
//! tracker, exercised end to end on concrete values.

use kiss_ui::attrs::Attr;
use kiss_ui::base::BaseWidget;
use kiss_ui::button::Button;
use kiss_ui::context::KISSContext;
use kiss_ui::context::KissError;
use kiss_ui::dialog::Dialog;
use kiss_ui::text::Label;
use kiss_ui::text::TextBox;
use kiss_ui::timer::Timer;
use kiss_ui::progress::ProgressBar;
use kiss_ui::widget::Widget;

#[test]
fn constructors_fail_before_run() {
    let mut ctx = KISSContext::new();
    assert_eq!(Button::new(&mut ctx), Err(KissError::NotRunning));
    assert_eq!(Label::new(&mut ctx, "x"), Err(KissError::NotRunning));
    assert_eq!(Label::new_empty(&mut ctx), Err(KissError::NotRunning));
    assert_eq!(TextBox::new(&mut ctx), Err(KissError::NotRunning));
    assert_eq!(Timer::new(&mut ctx), Err(KissError::NotRunning));
    assert_eq!(ProgressBar::new(&mut ctx), Err(KissError::NotRunning));
    assert_eq!(Dialog::empty(&mut ctx), Err(KissError::NotRunning));
}

#[test]
fn load_fails_before_run() {
    let ctx = KISSContext::new();
    assert_eq!(BaseWidget::load(&ctx, "x"), Err(KissError::NotRunning));
    assert_eq!(ctx.load_widget("x"), Err(KissError::NotRunning));
}

#[test]
fn apis_fail_after_run_returns() {
    let mut ctx = KISSContext::new();
    ctx.open().unwrap();
    let b = Button::new(&mut ctx).unwrap();
    let l = Label::new(&mut ctx, "hello").unwrap();
    ctx.close();
    // Every widget operation must now fail fast rather than touch
    // deinitialized native state.
    assert_eq!(Button::new(&mut ctx), Err(KissError::NotRunning));
    assert_eq!(b.set_label(&mut ctx, "go"), Err(KissError::NotRunning));
    assert!(matches!(l.get_text(&mut ctx), Err(KissError::NotRunning)));
    assert_eq!(
        b.to_base().get_int_attribute(&ctx, Attr::Time),
        Err(KissError::NotRunning)
    );
    assert_eq!(ctx.store_widget("x", b.to_base()), Err(KissError::NotRunning));
    assert_eq!(BaseWidget::load(&ctx, "x"), Err(KissError::NotRunning));
}

#[test]
fn open_twice_fails() {
    let mut ctx = KISSContext::new();
    assert!(ctx.open().is_ok());
    assert_eq!(ctx.open(), Err(KissError::AlreadyRunning));
    ctx.close();
    assert!(!ctx.is_running());
}

#[test]
fn downcast_roundtrip_succeeds() {
    let mut ctx = KISSContext::new();
    ctx.open().unwrap();
    let b = Button::new(&mut ctx).unwrap();
    let g = b.to_base();
    let back: Result<Button, BaseWidget> = g.try_downcast(&ctx);
    assert_eq!(back, Ok(b));
    let d = Dialog::empty(&mut ctx).unwrap();
    let back_d: Result<Dialog, BaseWidget> = d.to_base().try_downcast(&ctx);
    assert_eq!(back_d, Ok(d));
    ctx.close();
}

#[test]
fn downcast_mismatch_returns_original() {
    let mut ctx = KISSContext::new();
    ctx.open().unwrap();
    let b = Button::new(&mut ctx).unwrap();
    let g = b.to_base();
    let wrong: Result<Dialog, BaseWidget> = g.try_downcast(&ctx);
    // The original generic widget comes back unchanged: no mutation, no
    // loss.
    assert_eq!(wrong, Err(g));
    let wrong2: Result<Label, BaseWidget> = g.try_downcast(&ctx);
    assert_eq!(wrong2, Err(g));
    ctx.close();
}

#[test]
fn store_load_roundtrip_and_eviction() {
    let mut ctx = KISSContext::new();
    ctx.open().unwrap();
    let w = Button::new(&mut ctx).unwrap();
    let w2 = Button::new(&mut ctx).unwrap();
    assert_eq!(w.store(&mut ctx, "x"), Ok(None));
    assert_eq!(BaseWidget::load(&ctx, "x"), Ok(Some(w.to_base())));
    // A second store under the same name evicts and returns the first.
    assert_eq!(w2.store(&mut ctx, "x"), Ok(Some(w.to_base())));
    assert_eq!(BaseWidget::load(&ctx, "x"), Ok(Some(w2.to_base())));
    assert_eq!(BaseWidget::load(&ctx, "y"), Ok(None));
    ctx.close();
}

#[test]
fn live_view_blocks_set_text_until_released() {
    let mut ctx = KISSContext::new();
    ctx.open().unwrap();
    let l = Label::new(&mut ctx, "first").unwrap();
    let view = l.get_text(&mut ctx).unwrap().unwrap();
    assert_eq!(view.as_str(), "first");
    // While the view is alive, rewriting the attribute would dangle it.
    assert_eq!(l.set_text(&mut ctx, "second"), Err(KissError::BorrowViolation));
    view.release(&mut ctx);
    // After the view is gone the same write succeeds.
    assert_eq!(l.set_text(&mut ctx, "second"), Ok(()));
    let view2 = l.get_text(&mut ctx).unwrap().unwrap();
    assert_eq!(view2.as_str(), "second");
    view2.release(&mut ctx);
    ctx.close();
}

#[test]
fn refcount_tracks_each_live_view() {
    let mut ctx = KISSContext::new();
    ctx.open().unwrap();
    let l = Label::new(&mut ctx, "text").unwrap();
    assert_eq!(ctx.str_refcount(l.0, Attr::Title), Ok(0));
    let v1 = l.get_text(&mut ctx).unwrap().unwrap();
    let v2 = l.get_text(&mut ctx).unwrap().unwrap();
    assert_eq!(ctx.str_refcount(l.0, Attr::Title), Ok(2));
    v1.release(&mut ctx);
    assert_eq!(ctx.str_refcount(l.0, Attr::Title), Ok(1));
    assert_eq!(
        ctx.assert_str_not_borrowed(l.0, Attr::Title),
        Err(KissError::BorrowViolation)
    );
    v2.release(&mut ctx);
    assert_eq!(ctx.str_refcount(l.0, Attr::Title), Ok(0));
    assert_eq!(ctx.assert_str_not_borrowed(l.0, Attr::Title), Ok(()));
    ctx.close();
}

#[test]
fn embedded_nul_is_refused() {
    let mut ctx = KISSContext::new();
    ctx.open().unwrap();
    let b = Button::new(&mut ctx).unwrap();
    assert_eq!(b.set_label(&mut ctx, "a\0b"), Err(KissError::InteriorNul));
    assert_eq!(Label::new(&mut ctx, "oops\0"), Err(KissError::InteriorNul));
    // A clean label still works.
    assert!(b.set_label(&mut ctx, "ab").is_ok());
    ctx.close();
}

#[test]
fn named_child_is_found_in_dialog() {
    let mut ctx = KISSContext::new();
    ctx.open().unwrap();
    let l = Label::new(&mut ctx, "inner").unwrap();
    let l = Label(l.to_base().set_name(&mut ctx, "content").unwrap());
    let d = Dialog::new(&mut ctx, l).unwrap();
    assert_eq!(d.get_child(&ctx, "content"), Ok(Some(l.to_base())));
    assert_eq!(d.get_child(&ctx, "missing"), Ok(None));
    ctx.close();
}

#[test]
fn set_opt_str_attribute_resets() {
    let mut ctx = KISSContext::new();
    ctx.open().unwrap();
    let t = TextBox::new(&mut ctx).unwrap();
    let base = t.to_base();
    assert_eq!(base.set_opt_str_attribute(&mut ctx, Attr::Value, Some("abc")), Ok(()));
    let v = t.get_text(&mut ctx).unwrap().unwrap();
    assert_eq!(v.as_str(), "abc");
    v.release(&mut ctx);
    // Resetting makes the attribute read as absent again.
    assert_eq!(base.set_opt_str_attribute(&mut ctx, Attr::Value, None), Ok(()));
    assert_eq!(t.get_text(&mut ctx).unwrap().map(|w| w.data), None);
    ctx.close();
}

#[test]
fn duplicated_view_blocks_until_both_released() {
    let mut ctx = KISSContext::new();
    ctx.open().unwrap();
    let l = Label::new(&mut ctx, "shared").unwrap();
    let v1 = l.get_text(&mut ctx).unwrap().unwrap();
    let v2 = v1.duplicate(&mut ctx);
    assert_eq!(v2.as_str(), "shared");
    v1.release(&mut ctx);
    // The duplicate still holds the borrow.
    assert_eq!(l.set_text(&mut ctx, "other"), Err(KissError::BorrowViolation));
    v2.release(&mut ctx);
    assert_eq!(l.set_text(&mut ctx, "other"), Ok(()));
    ctx.close();
}
