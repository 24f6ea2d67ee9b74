//! Callback registration and dispatch, driven the way an event loop drives
//! them: the session resolves each simulated native event to a step, the
//! driver runs its closure and hands the status back.

use kiss_ui::attrs::Attr;
use kiss_ui::base::BaseWidget;
use kiss_ui::button::Button;
use kiss_ui::callback::Callback;
use kiss_ui::callback::CallbackReturn;
use kiss_ui::callback::CallbackStatus;
use kiss_ui::callback::DispatchStep;
use kiss_ui::callback::IUP_CLOSE;
use kiss_ui::callback::IUP_DEFAULT;
use kiss_ui::callback::OnClick;
use kiss_ui::context::KISSContext;
use kiss_ui::context::KissError;
use kiss_ui::dialog::Dialog;
use kiss_ui::timer::Timer;
use kiss_ui::widget::Widget;

/// A test closure: counts its invocations, remembers the widget it was
/// handed, and answers with a fixed status.
struct Recorder {
    invocations: usize,
    seen: Option<BaseWidget>,
    answer: CallbackStatus,
}

impl Callback<BaseWidget> for Recorder {
    fn on_callback(&mut self, args: BaseWidget) -> CallbackStatus {
        self.invocations += 1;
        self.seen = Some(args);
        self.answer
    }
}

fn visible_of(ctx: &mut KISSContext, w: BaseWidget) -> Option<String> {
    match w.get_str_attribute(ctx, Attr::Visible).unwrap() {
        Some(view) => {
            let text = view.data.clone();
            view.release(ctx);
            Some(text)
        }
        None => None,
    }
}

#[test]
fn registered_callback_runs_once_and_close_closes_dialog() {
    let mut ctx = KISSContext::new();
    ctx.open().unwrap();
    let b = Button::new(&mut ctx).unwrap();
    let d = Dialog::new(&mut ctx, b).unwrap();
    d.to_base().show(&mut ctx).unwrap();
    assert_eq!(visible_of(&mut ctx, d.to_base()).as_deref(), Some("YES"));

    let id = b.set_onclick(&mut ctx).unwrap();
    let mut recorder = Recorder { invocations: 0, seen: None, answer: CallbackStatus::Close };

    // One native "clicked" event.
    let step = ctx.simulate_event(b.to_base(), Attr::Action).unwrap();
    assert_eq!(step, DispatchStep::Invoke { id, widget: b.to_base() });
    let code = match step {
        DispatchStep::Invoke { id: got, widget } => {
            assert_eq!(got, id);
            let status = recorder.on_callback(widget);
            ctx.finish_dispatch(widget, status).unwrap()
        }
        DispatchStep::NoCallback => IUP_DEFAULT,
    };
    // The closure ran exactly once, with the button's identity.
    assert_eq!(recorder.invocations, 1);
    assert_eq!(recorder.seen, Some(b.to_base()));
    // "Close" takes the containing dialog's close path.
    assert_eq!(code, IUP_CLOSE);
    assert_eq!(visible_of(&mut ctx, d.to_base()).as_deref(), Some("NO"));
    ctx.close();
}

#[test]
fn default_status_leaves_dialog_open() {
    let mut ctx = KISSContext::new();
    ctx.open().unwrap();
    let b = Button::new(&mut ctx).unwrap();
    let d = Dialog::new(&mut ctx, b).unwrap();
    d.to_base().show(&mut ctx).unwrap();

    let id = b.set_onclick(&mut ctx).unwrap();
    let mut recorder = Recorder { invocations: 0, seen: None, answer: CallbackStatus::Default };
    let step = ctx.simulate_event(b.to_base(), Attr::Action).unwrap();
    assert_eq!(step, DispatchStep::Invoke { id, widget: b.to_base() });
    let status = recorder.on_callback(b.to_base());
    let code = ctx.finish_dispatch(b.to_base(), status).unwrap();
    assert_eq!(code, IUP_DEFAULT);
    assert_eq!(visible_of(&mut ctx, d.to_base()).as_deref(), Some("YES"));
    ctx.close();
}

#[test]
fn end_to_end_absent_callback_is_a_safe_noop() {
    // The whole entry-point scenario with a simulated loop: build the
    // window, show it, process one synthetic click on a button with no
    // registered callback.
    let mut ctx = KISSContext::new();
    ctx.open().unwrap();
    let b = Button::new(&mut ctx).unwrap();
    let b = b.set_label(&mut ctx, "Go").unwrap();
    let d = Dialog::new(&mut ctx, b).unwrap();
    let d = d.show(&mut ctx).unwrap();
    b.store(&mut ctx, "the-button").unwrap();

    // The simulated loop receives the click for the stored button handle.
    let target = BaseWidget::load(&ctx, "the-button").unwrap().unwrap();
    let step = ctx.simulate_event(target, Attr::Action).unwrap();
    let code = match step {
        DispatchStep::Invoke { .. } => panic!("no callback was registered"),
        DispatchStep::NoCallback => IUP_DEFAULT,
    };
    assert_eq!(code, IUP_DEFAULT);
    assert_eq!(visible_of(&mut ctx, d.to_base()).as_deref(), Some("YES"));
    ctx.close();
}

#[test]
fn replacing_a_callback_defers_the_old_closure() {
    let mut ctx = KISSContext::new();
    ctx.open().unwrap();
    let b = Button::new(&mut ctx).unwrap();
    let first = b.set_onclick(&mut ctx).unwrap();
    let second = b.set_onclick(&mut ctx).unwrap();
    assert_ne!(first, second);
    // Dispatch resolves to the replacement.
    let step = ctx.simulate_event(b.to_base(), Attr::Action).unwrap();
    assert_eq!(step, DispatchStep::Invoke { id: second, widget: b.to_base() });
    // The replaced token waits in the deferred-cleanup list.
    assert_eq!(ctx.drops, vec![first]);
    ctx.close();
}

#[test]
fn timer_interval_callback_dispatches() {
    let mut ctx = KISSContext::new();
    ctx.open().unwrap();
    let t = Timer::new(&mut ctx).unwrap();
    let t = t.set_interval(&mut ctx, 250).unwrap();
    let id = t.set_on_interval(&mut ctx).unwrap();
    let t = t.start(&mut ctx).unwrap();
    assert_eq!(
        t.to_base().get_int_attribute(&ctx, Attr::Time).unwrap(),
        250
    );
    let step = ctx.simulate_event(t.to_base(), Attr::ActionCb).unwrap();
    assert_eq!(step, DispatchStep::Invoke { id, widget: t.to_base() });
    let t = t.stop(&mut ctx).unwrap();
    let run = run_state_of(&mut ctx, t.to_base());
    assert_eq!(run.as_deref(), Some("NO"));
    ctx.close();
}

fn run_state_of(ctx: &mut KISSContext, w: BaseWidget) -> Option<String> {
    match w.get_str_attribute(ctx, Attr::Run).unwrap() {
        Some(view) => {
            let text = view.data.clone();
            view.release(ctx);
            Some(text)
        }
        None => None,
    }
}

#[test]
fn dispatch_outside_session_fails() {
    let mut ctx = KISSContext::new();
    ctx.open().unwrap();
    let b = Button::new(&mut ctx).unwrap();
    ctx.close();
    assert_eq!(
        ctx.simulate_event(b.to_base(), Attr::Action),
        Err(KissError::NotRunning)
    );
    assert_eq!(
        ctx.finish_dispatch(b.to_base(), CallbackStatus::Close),
        Err(KissError::NotRunning)
    );
    assert_eq!(b.set_onclick(&mut ctx), Err(KissError::NotRunning));
}

#[test]
fn status_and_return_codes() {
    let mut s = CallbackStatus::Default;
    assert_eq!(s.to_cb_return(), IUP_DEFAULT);
    assert_eq!(IUP_DEFAULT, -2);
    s.close();
    assert_eq!(s, CallbackStatus::Close);
    assert_eq!(s.to_cb_return(), IUP_CLOSE);
    assert_eq!(IUP_CLOSE, -3);
    assert_eq!(CallbackReturn::Ignore.code(), -1);
    assert_eq!(CallbackReturn::Default.code(), -2);
    assert_eq!(CallbackReturn::Close.code(), -3);
    assert_eq!(CallbackReturn::Continue.code(), -4);
}
