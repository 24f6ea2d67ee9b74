//! Top-level dialogs (windows), the blocking message popup and the alert
//! popup builder.

use vstd::prelude::*;

use crate::attrs::Attr;
use crate::base::BaseWidget;
use crate::base::Downcast;
use crate::context::KISSContext;
use crate::context::KissError;
use crate::native::NativeObject;
use crate::native::WidgetClass;
use crate::widget::Destroy;
use crate::widget::Widget;
use crate::widget::str_has_nul;

verus! {

/// A top-level dialog that shows as a native window and contains a single
/// widget (which can be a container of many).
#[derive(Clone, Copy, PartialEq, Eq, Structural, Debug)]
pub struct Dialog(pub BaseWidget);

impl Widget for Dialog {
    open spec fn base_spec(self) -> BaseWidget {
        self.0
    }

    fn to_base(self) -> (r: BaseWidget) {
        self.0
    }
}

impl Downcast for Dialog {
    open spec fn classes() -> Set<WidgetClass> {
        set![WidgetClass::Dialog]
    }

    fn can_downcast(base: &BaseWidget, ctx: &KISSContext) -> (r: bool) {
        matches!(base.classname(ctx), WidgetClass::Dialog)
    }

    fn downcast(base: BaseWidget) -> (r: Dialog) {
        Dialog(base)
    }
}

impl Destroy for Dialog {

}

impl Dialog {
    /// Create a new dialog holding `contents` as its single child. The
    /// dialog does not appear on screen until it is shown.
    pub fn new<W: Widget>(ctx: &mut KISSContext, contents: W) -> (r: Result<Dialog, KissError>)
        requires
            old(ctx).wf(),
            old(ctx).running ==> contents.base_spec().valid(*old(ctx)),
        ensures
            final(ctx).wf(),
            !old(ctx).running ==> r == Result::<Dialog, KissError>::Err(KissError::NotRunning)
                && *final(ctx) == *old(ctx),
            old(ctx).running ==> (r matches Ok(d) && {
                &&& d.0.id() == old(ctx).native.count()
                &&& *final(ctx) == (KISSContext { native: final(ctx).native, ..*old(ctx) })
                &&& final(ctx).native.count() == old(ctx).native.count() + 1
                &&& final(ctx).native.class_of(d.0.id()) == WidgetClass::Dialog
                &&& final(ctx).native.alive(d.0.id())
                &&& final(ctx).native.parent_of(d.0.id()) is None
                &&& final(ctx).native.obj(contents.base_spec().id()) == (NativeObject {
                    parent: Some(d.0.raw),
                    child_index: 0,
                    ..old(ctx).native.obj(contents.base_spec().id())
                })
                &&& forall|i: int|
                    old(ctx).native.has(i) && i != contents.base_spec().id() ==> final(ctx).native.obj(i) == old(ctx).native.obj(i)
            }),
    {
        if !ctx.is_running() {
            return Err(KissError::NotRunning);
        }
        let base = contents.to_base();
        let h = ctx.native.create(WidgetClass::Dialog);
        ctx.native.attach(base.raw, h, 0);
        Ok(Dialog(BaseWidget { raw: h }))
    }

    /// Create a new dialog with no children.
    pub fn empty(ctx: &mut KISSContext) -> (r: Result<Dialog, KissError>)
        requires
            old(ctx).wf(),
        ensures
            final(ctx).wf(),
            !old(ctx).running ==> r == Result::<Dialog, KissError>::Err(KissError::NotRunning)
                && *final(ctx) == *old(ctx),
            old(ctx).running ==> (r matches Ok(d) && {
                &&& d.0.id() == old(ctx).native.count()
                &&& *final(ctx) == (KISSContext { native: final(ctx).native, ..*old(ctx) })
                &&& final(ctx).native.count() == old(ctx).native.count() + 1
                &&& final(ctx).native.class_of(d.0.id()) == WidgetClass::Dialog
                &&& final(ctx).native.alive(d.0.id())
                &&& final(ctx).native.parent_of(d.0.id()) is None
                &&& forall|i: int|
                    old(ctx).native.has(i) ==> final(ctx).native.obj(i) == old(ctx).native.obj(i)
            }),
    {
        if !ctx.is_running() {
            return Err(KissError::NotRunning);
        }
        let h = ctx.native.create(WidgetClass::Dialog);
        Ok(Dialog(BaseWidget { raw: h }))
    }

    /// Set the title shown in the native window's title bar.
    pub fn set_title(self, ctx: &mut KISSContext, title: &str) -> (r: Result<Dialog, KissError>)
        requires
            old(ctx).wf(),
            old(ctx).running ==> self.0.valid(*old(ctx)),
        ensures
            final(ctx).wf(),
            !old(ctx).running ==> r == Result::<Dialog, KissError>::Err(KissError::NotRunning)
                && *final(ctx) == *old(ctx),
            old(ctx).running && old(ctx).refcount(self.0, Attr::Title) > 0 ==> r == Result::<
                Dialog,
                KissError,
            >::Err(KissError::BorrowViolation) && *final(ctx) == *old(ctx),
            old(ctx).running && old(ctx).refcount(self.0, Attr::Title) == 0 && str_has_nul(title)
                ==> r == Result::<Dialog, KissError>::Err(KissError::InteriorNul) && *final(ctx)
                == *old(ctx),
            old(ctx).running && old(ctx).refcount(self.0, Attr::Title) == 0 && !str_has_nul(title)
                ==> {
                &&& r == Result::<Dialog, KissError>::Ok(self)
                &&& *final(ctx) == (KISSContext { native: final(ctx).native, ..*old(ctx) })
                &&& final(ctx).native.count() == old(ctx).native.count()
                &&& final(ctx).native.obj(self.0.id()) == (crate::native::NativeObject {
                    strs: final(ctx).native.obj(self.0.id()).strs,
                    ..old(ctx).native.obj(self.0.id())
                })
                &&& final(ctx).native.str_attr(self.0.id(), Attr::Title) == Some(title@)
                &&& forall|m: Attr|
                    m != Attr::Title ==> final(ctx).native.str_attr(self.0.id(), m) == old(ctx).native.str_attr(self.0.id(), m)
                &&& forall|i: int|
                    final(ctx).native.has(i) && i != self.0.id() ==> final(ctx).native.obj(i)
                        == old(ctx).native.obj(i)
            },
    {
        match self.0.set_str_attribute(ctx, Attr::Title, title) {
            Ok(()) => Ok(self),
            Err(e) => Err(e),
        }
    }

    /// Set the size of this dialog in pixels.
    pub fn set_size_pixels(self, ctx: &mut KISSContext, width: u32, height: u32) -> (r: Result<
        Dialog,
        KissError,
    >)
        requires
            old(ctx).wf(),
            old(ctx).running ==> self.0.valid(*old(ctx)),
            width <= i32::MAX,
            height <= i32::MAX,
        ensures
            final(ctx).wf(),
            !old(ctx).running ==> r == Result::<Dialog, KissError>::Err(KissError::NotRunning)
                && *final(ctx) == *old(ctx),
            old(ctx).running ==> {
                &&& r == Result::<Dialog, KissError>::Ok(self)
                &&& *final(ctx) == (KISSContext { native: final(ctx).native, ..*old(ctx) })
                &&& final(ctx).native.count() == old(ctx).native.count()
                &&& final(ctx).native.obj(self.0.id()) == (crate::native::NativeObject {
                    pairs: final(ctx).native.obj(self.0.id()).pairs,
                    ..old(ctx).native.obj(self.0.id())
                })
                &&& final(ctx).native.pair_attr(self.0.id(), Attr::RasterSize) == (
                width as i32,
                height as i32,
                )
                &&& forall|i: int|
                    final(ctx).native.has(i) && i != self.0.id() ==> final(ctx).native.obj(i)
                        == old(ctx).native.obj(i)
            },
    {
        match self.0.set_int2_attribute(ctx, Attr::RasterSize, (width as i32, height as i32)) {
            Ok(()) => Ok(self),
            Err(e) => Err(e),
        }
    }

    /// Find a live child of this dialog carrying the name `name`; `None` if
    /// there is no such child.
    pub fn get_child(&self, ctx: &KISSContext, name: &str) -> (r: Result<
        Option<BaseWidget>,
        KissError,
    >)
        requires
            ctx.wf(),
            ctx.running ==> self.0.valid(*ctx),
        ensures
            !ctx.running ==> r == Result::<Option<BaseWidget>, KissError>::Err(
                KissError::NotRunning,
            ),
            ctx.running ==> (r matches Ok(o) && match o {
                Some(w) => ctx.native.named_match(w.id(), self.0.id(), name@) && forall|k: int|
                    0 <= k < w.id() ==> !ctx.native.named_match(k, self.0.id(), name@),
                None => forall|k: int| !ctx.native.named_match(k, self.0.id(), name@),
            }),
    {
        if !ctx.is_running() {
            return Err(KissError::NotRunning);
        }
        let name_string = name.to_owned();
        match ctx.native.find_named(self.0.raw, &name_string) {
            Some(j) => Ok(Some(BaseWidget { raw: j })),
            None => Ok(None),
        }
    }

    /// Destroy this dialog, together with all attached children.
    pub fn destroy(self, ctx: &mut KISSContext) -> (r: Result<(), KissError>)
        requires
            old(ctx).wf(),
            old(ctx).running ==> self.0.valid(*old(ctx)),
        ensures
            final(ctx).wf(),
            !old(ctx).running ==> r == Result::<(), KissError>::Err(KissError::NotRunning)
                && *final(ctx) == *old(ctx),
            old(ctx).running ==> {
                &&& r == Result::<(), KissError>::Ok(())
                &&& *final(ctx) == (KISSContext { native: final(ctx).native, ..*old(ctx) })
                &&& final(ctx).native.count() == old(ctx).native.count()
                &&& forall|i: int|
                    #![trigger final(ctx).native.alive(i)]
                    final(ctx).native.has(i) ==> final(ctx).native.alive(i) == (old(ctx).native.alive(i) && i != self.0.id() && match old(ctx).native.parent_of(i) {
                        None => true,
                        Some(p) => final(ctx).native.alive(p as int),
                    })
                &&& !final(ctx).native.alive(self.0.id())
            },
    {
        Destroy::destroy(self, ctx)
    }
}

/// Pop up a message dialog and block until the user closes it. The message
/// leaves no trace in the session; strings that cannot cross the native
/// boundary are refused.
pub fn message_popup(ctx: &KISSContext, title: &str, message: &str) -> (r: Result<(), KissError>)
    ensures
        !ctx.running ==> r == Result::<(), KissError>::Err(KissError::NotRunning),
        ctx.running && (str_has_nul(title) || str_has_nul(message)) ==> r == Result::<
            (),
            KissError,
        >::Err(KissError::InteriorNul),
        ctx.running && !str_has_nul(title) && !str_has_nul(message) ==> r == Result::<
            (),
            KissError,
        >::Ok(()),
{
    if !ctx.is_running() {
        return Err(KissError::NotRunning);
    }
    if crate::widget::check_nul(title) || crate::widget::check_nul(message) {
        return Err(KissError::InteriorNul);
    }
    Ok(())
}

/// A builder for an alert dialog showing a message and up to three buttons
/// for the user's response.
pub struct AlertPopupBuilder {
    /// Title of the alert window.
    pub title: String,
    /// The message shown in the alert.
    pub message: String,
    /// Label of the first button.
    pub button1: String,
    /// Label of the second button, if any.
    pub button2: Option<String>,
    /// Label of the third button, if any.
    pub button3: Option<String>,
}

impl AlertPopupBuilder {
    /// Start an alert with a title, a message and the first button's label.
    pub fn new(title: &str, message: &str, button1: &str) -> (r: AlertPopupBuilder)
        ensures
            r.title@ == title@,
            r.message@ == message@,
            r.button1@ == button1@,
            r.button2 is None,
            r.button3 is None,
    {
        AlertPopupBuilder {
            title: title.to_owned(),
            message: message.to_owned(),
            button1: button1.to_owned(),
            button2: None,
            button3: None,
        }
    }

    /// Set the label of the second button.
    pub fn button2(self, button2: &str) -> (r: AlertPopupBuilder)
        ensures
            r == (AlertPopupBuilder { button2: r.button2, ..self }),
            r.button2 matches Some(b) && b@ == button2@,
    {
        AlertPopupBuilder { button2: Some(button2.to_owned()), ..self }
    }

    /// Set the label of the third button.
    pub fn button3(self, button3: &str) -> (r: AlertPopupBuilder)
        ensures
            r == (AlertPopupBuilder { button3: r.button3, ..self }),
            r.button3 matches Some(b) && b@ == button3@,
    {
        AlertPopupBuilder { button3: Some(button3.to_owned()), ..self }
    }

    /// Whether some string of this alert cannot cross the native boundary.
    pub open spec fn some_nul(self) -> bool {
        ||| crate::widget::chars_have_nul(self.title@)
        ||| crate::widget::chars_have_nul(self.message@)
        ||| crate::widget::chars_have_nul(self.button1@)
        ||| (self.button2 matches Some(b) && crate::widget::chars_have_nul(b@))
        ||| (self.button3 matches Some(b) && crate::widget::chars_have_nul(b@))
    }

    /// Pop the alert up and block until the user responds. Returns the
    /// number of the button pressed, or 0 if the dialog was closed. The
    /// response comes from the session's scripted queue of user answers;
    /// with no scripted answer left, the dialog counts as closed.
    pub fn popup(self, ctx: &mut KISSContext) -> (r: Result<i32, KissError>)
        requires
            old(ctx).wf(),
        ensures
            final(ctx).wf(),
            !old(ctx).running ==> r == Result::<i32, KissError>::Err(KissError::NotRunning)
                && *final(ctx) == *old(ctx),
            old(ctx).running && self.some_nul() ==> r == Result::<i32, KissError>::Err(
                KissError::InteriorNul,
            ) && *final(ctx) == *old(ctx),
            old(ctx).running && !self.some_nul() ==> {
                &&& *final(ctx) == (KISSContext {
                    popup_served: final(ctx).popup_served,
                    ..*old(ctx)
                })
                &&& if old(ctx).popup_served < old(ctx).popup_answers@.len() {
                    r == Result::<i32, KissError>::Ok(
                        old(ctx).popup_answers@[old(ctx).popup_served as int],
                    ) && final(ctx).popup_served == old(ctx).popup_served + 1
                } else {
                    r == Result::<i32, KissError>::Ok(0) && final(ctx).popup_served == old(ctx).popup_served
                }
            },
    {
        if !ctx.is_running() {
            return Err(KissError::NotRunning);
        }
        let mut nul = crate::widget::check_nul(self.title.as_str());
        nul = nul || crate::widget::check_nul(self.message.as_str());
        nul = nul || crate::widget::check_nul(self.button1.as_str());
        nul = nul || match &self.button2 {
            Some(b) => crate::widget::check_nul(b.as_str()),
            None => false,
        };
        nul = nul || match &self.button3 {
            Some(b) => crate::widget::check_nul(b.as_str()),
            None => false,
        };
        if nul {
            return Err(KissError::InteriorNul);
        }
        Ok(ctx.take_popup_answer())
    }
}

} // verus!
