//! Renderable image buffers and the widgets that can carry one.

use vstd::prelude::*;

use crate::attrs::Attr;
use crate::base::BaseWidget;
use crate::base::Downcast;
use crate::context::KISSContext;
use crate::context::KissError;
use crate::native::NativeObject;
use crate::native::WidgetClass;
use crate::widget::Destroy;
use crate::widget::Widget;

verus! {

/// An image buffer allocated by the native toolkit. Not renderable by
/// itself: it is attached to a widget that implements [`ImageContainer`].
/// Image buffers can be large, so they should be destroyed explicitly when
/// no longer used; clones share the same native allocation.
#[derive(Clone, Copy, PartialEq, Eq, Structural, Debug)]
pub struct Image(pub BaseWidget);

impl Widget for Image {
    open spec fn base_spec(self) -> BaseWidget {
        self.0
    }

    fn to_base(self) -> (r: BaseWidget) {
        proof {
            assert(self.base_spec() == self.0);
        }
        self.0
    }
}

impl Downcast for Image {
    open spec fn classes() -> Set<WidgetClass> {
        set![WidgetClass::Image]
    }

    fn can_downcast(base: &BaseWidget, ctx: &KISSContext) -> (r: bool) {
        matches!(base.classname(ctx), WidgetClass::Image)
    }

    fn downcast(base: BaseWidget) -> (r: Image) {
        Image(base)
    }
}

impl Destroy for Image {

}

impl Image {
    /// Create an image buffer of the given dimensions from a slice of
    /// 3-byte pixels, copying the data into a native allocation.
    pub fn new_rgb(ctx: &mut KISSContext, width: u32, height: u32, pixels: &[(u8, u8, u8)]) -> (r:
        Result<Image, KissError>)
        requires
            old(ctx).wf(),
            (width as int) * (height as int) == pixels@.len(),
            width <= i32::MAX,
            height <= i32::MAX,
        ensures
            final(ctx).wf(),
            !old(ctx).running ==> r == Result::<Image, KissError>::Err(KissError::NotRunning)
                && *final(ctx) == *old(ctx),
            old(ctx).running ==> (r matches Ok(img) && {
                &&& img.0.id() == old(ctx).native.count()
                &&& *final(ctx) == (KISSContext { native: final(ctx).native, ..*old(ctx) })
                &&& final(ctx).native.count() == old(ctx).native.count() + 1
                &&& final(ctx).native.class_of(img.0.id()) == WidgetClass::Image
                &&& final(ctx).native.alive(img.0.id())
                &&& final(ctx).native.parent_of(img.0.id()) is None
                &&& final(ctx).native.pair_attr(img.0.id(), Attr::RasterSize) == (
                width as i32,
                height as i32,
                )
                &&& forall|i: int|
                    old(ctx).native.has(i) ==> final(ctx).native.obj(i) == old(ctx).native.obj(i)
            }),
    {
        if !ctx.is_running() {
            return Err(KissError::NotRunning);
        }
        let h = ctx.native.create(WidgetClass::Image);
        ctx.native.set_pair_raw(h, Attr::RasterSize, (width as i32, height as i32));
        Ok(Image(BaseWidget { raw: h }))
    }

    /// Create an image buffer of the given dimensions from a slice of
    /// 4-byte pixels, copying the data into a native allocation.
    pub fn new_rgba(
        ctx: &mut KISSContext,
        width: u32,
        height: u32,
        pixels: &[(u8, u8, u8, u8)],
    ) -> (r: Result<Image, KissError>)
        requires
            old(ctx).wf(),
            (width as int) * (height as int) == pixels@.len(),
            width <= i32::MAX,
            height <= i32::MAX,
        ensures
            final(ctx).wf(),
            !old(ctx).running ==> r == Result::<Image, KissError>::Err(KissError::NotRunning)
                && *final(ctx) == *old(ctx),
            old(ctx).running ==> (r matches Ok(img) && {
                &&& img.0.id() == old(ctx).native.count()
                &&& *final(ctx) == (KISSContext { native: final(ctx).native, ..*old(ctx) })
                &&& final(ctx).native.count() == old(ctx).native.count() + 1
                &&& final(ctx).native.class_of(img.0.id()) == WidgetClass::Image
                &&& final(ctx).native.alive(img.0.id())
                &&& final(ctx).native.parent_of(img.0.id()) is None
                &&& final(ctx).native.pair_attr(img.0.id(), Attr::RasterSize) == (
                width as i32,
                height as i32,
                )
                &&& forall|i: int|
                    old(ctx).native.has(i) ==> final(ctx).native.obj(i) == old(ctx).native.obj(i)
            }),
    {
        if !ctx.is_running() {
            return Err(KissError::NotRunning);
        }
        let h = ctx.native.create(WidgetClass::Image);
        ctx.native.set_pair_raw(h, Attr::RasterSize, (width as i32, height as i32));
        Ok(Image(BaseWidget { raw: h }))
    }

    /// Destroy this image, releasing its backing memory. All clones share
    /// the allocation, so they are all dead afterwards.
    pub fn destroy(self, ctx: &mut KISSContext) -> (r: Result<(), KissError>)
        requires
            old(ctx).wf(),
            old(ctx).running ==> self.0.valid(*old(ctx)),
        ensures
            final(ctx).wf(),
            !old(ctx).running ==> r == Result::<(), KissError>::Err(KissError::NotRunning)
                && *final(ctx) == *old(ctx),
            old(ctx).running ==> {
                &&& r == Result::<(), KissError>::Ok(())
                &&& *final(ctx) == (KISSContext { native: final(ctx).native, ..*old(ctx) })
                &&& final(ctx).native.count() == old(ctx).native.count()
                &&& !final(ctx).native.alive(self.0.id())
                &&& forall|i: int|
                    #![trigger final(ctx).native.alive(i)]
                    final(ctx).native.has(i) ==> final(ctx).native.alive(i) == (old(ctx).native.alive(i) && i != self.0.id() && match old(ctx).native.parent_of(i) {
                        None => true,
                        Some(p) => final(ctx).native.alive(p as int),
                    })
            },
    {
        Destroy::destroy(self, ctx)
    }
}

/// A widget that can render an image within itself. The image attached to
/// the slot is owned by the widget: attaching a new one first destroys the
/// previous one, so native image buffers are not leaked.
pub trait ImageContainer: Widget {
    /// Attach `image` to this widget, destroying any previously attached
    /// image first.
    fn set_image(self, ctx: &mut KISSContext, image: Image) -> (r: Result<Self, KissError>)
        requires
            old(ctx).wf(),
            old(ctx).running ==> self.base_spec().valid(*old(ctx)),
            old(ctx).running ==> image.0.valid(*old(ctx)),
        ensures
            final(ctx).wf(),
            !old(ctx).running ==> r == Result::<Self, KissError>::Err(KissError::NotRunning)
                && *final(ctx) == *old(ctx),
            old(ctx).running ==> {
                &&& r == Result::<Self, KissError>::Ok(self)
                &&& *final(ctx) == (KISSContext { native: final(ctx).native, ..*old(ctx) })
                &&& final(ctx).native.count() == old(ctx).native.count()
                &&& final(ctx).native.handle_attr(self.base_spec().id(), Attr::Image) == Some(
                    image.0.raw,
                )
                &&& forall|m: Attr|
                    m != Attr::Image ==> final(ctx).native.handle_attr(self.base_spec().id(), m)
                        == old(ctx).native.handle_attr(self.base_spec().id(), m)
                &&& forall|i: int|
                    #![trigger final(ctx).native.obj(i)]
                    final(ctx).native.has(i) && i != self.base_spec().id() ==> final(ctx).native.obj(i) == (NativeObject {
                        alive: final(ctx).native.alive(i),
                        ..old(ctx).native.obj(i)
                    })
                &&& match old(ctx).native.handle_attr(self.base_spec().id(), Attr::Image) {
                    Some(prev) => old(ctx).native.has(prev as int) ==> (!final(ctx).native.alive(
                        prev as int,
                    ) && forall|i: int|
                        #![trigger final(ctx).native.alive(i)]
                        final(ctx).native.has(i) ==> final(ctx).native.alive(i) == (old(ctx).native.alive(i) && i != prev && match old(ctx).native.parent_of(i) {
                            None => true,
                            Some(p) => final(ctx).native.alive(p as int),
                        })),
                    None => forall|i: int|
                        #![trigger final(ctx).native.alive(i)]
                        final(ctx).native.has(i) ==> final(ctx).native.alive(i) == old(ctx).native.alive(i),
                }
            },
    {
        if !ctx.is_running() {
            return Err(KissError::NotRunning);
        }
        let base = self.to_base();
        match ctx.native.get_handle_raw(base.raw, Attr::Image) {
            Some(prev) => {
                if prev < ctx.native.objects.len() {
                    ctx.native.destroy(prev);
                }
            },
            None => {},
        }
        let ghost mid = ctx.native;
        ctx.native.set_handle_raw(base.raw, Attr::Image, image.to_base().raw);
        proof {
            let pre = old(ctx).native;
            let post = ctx.native;
            let me = base.raw as int;
            assert forall|i: int|
                #![trigger post.alive(i)]
                post.has(i) implies post.alive(i) == mid.alive(i) by {
                if i != me {
                    assert(post.obj(i) == mid.obj(i));
                }
            };
            assert forall|i: int|
                #![trigger post.obj(i)]
                post.has(i) && i != me implies post.obj(i) == (NativeObject {
                    alive: post.alive(i),
                    ..pre.obj(i)
                }) by {
                assert(post.obj(i) == mid.obj(i));
                assert(mid.obj(i) == (NativeObject { alive: mid.alive(i), ..pre.obj(i) }));
            };
            assert(mid.obj(me).handles == pre.obj(me).handles);
            assert forall|m: Attr|
                m != Attr::Image implies post.handle_attr(me, m) == pre.handle_attr(me, m) by {
                assert(post.handle_attr(me, m) == mid.handle_attr(me, m));
            };
        }
        Ok(self)
    }

    /// Get a copy of the image attached to this widget, if any.
    fn get_image(&self, ctx: &KISSContext) -> (r: Result<Option<Image>, KissError>)
        requires
            ctx.running ==> self.base_spec().valid(*ctx),
        ensures
            !ctx.running ==> r == Result::<Option<Image>, KissError>::Err(KissError::NotRunning),
            ctx.running ==> r == Result::<Option<Image>, KissError>::Ok(
                match ctx.native.handle_attr(self.base_spec().id(), Attr::Image) {
                    Some(t) => Some(Image(BaseWidget { raw: t })),
                    None => None,
                },
            ),
    {
        if !ctx.is_running() {
            return Err(KissError::NotRunning);
        }
        match ctx.native.get_handle_raw(self.to_base().raw, Attr::Image) {
            Some(t) => Ok(Some(Image(BaseWidget { raw: t }))),
            None => Ok(None),
        }
    }
}

} // verus!
