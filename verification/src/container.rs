//! Container widgets that hold multiple children, and the alignment
//! settings they use.

use vstd::prelude::*;

use crate::attrs::Attr;
use crate::base::BaseWidget;
use crate::base::Downcast;
use crate::context::KISSContext;
use crate::context::KissError;
use crate::native::NativeObject;
use crate::native::WidgetClass;
use crate::widget::Widget;

verus! {

/// Vertical alignment of children, used by `Horizontal` and `Grid`.
#[derive(Clone, Copy, PartialEq, Eq, Structural, Debug)]
pub enum VAlign {
    /// Align children at the top edge.
    Top,
    /// Center children vertically.
    Center,
    /// Align children at the bottom edge.
    Bottom,
}

impl VAlign {
    /// The constant the native toolkit stores for this alignment.
    pub fn as_cstr(self) -> (r: &'static str)
        ensures
            r@ == self.value_spec(),
    {
        match self {
            VAlign::Top => "ATOP",
            VAlign::Center => "ACENTER",
            VAlign::Bottom => "ABOTTOM",
        }
    }

    /// The constant's text.
    pub open spec fn value_spec(self) -> Seq<char> {
        match self {
            VAlign::Top => "ATOP"@,
            VAlign::Center => "ACENTER"@,
            VAlign::Bottom => "ABOTTOM"@,
        }
    }
}

/// Horizontal alignment of children, used by `Vertical` and `Grid`.
#[derive(Clone, Copy, PartialEq, Eq, Structural, Debug)]
pub enum HAlign {
    /// Align children at the left edge.
    Left,
    /// Center children horizontally.
    Center,
    /// Align children at the right edge.
    Right,
}

impl HAlign {
    /// The constant the native toolkit stores for this alignment.
    pub fn as_cstr(self) -> (r: &'static str)
        ensures
            r@ == self.value_spec(),
    {
        match self {
            HAlign::Left => "ALEFT",
            HAlign::Center => "ACENTER",
            HAlign::Right => "ARIGHT",
        }
    }

    /// The constant's text.
    pub open spec fn value_spec(self) -> Seq<char> {
        match self {
            HAlign::Left => "ALEFT"@,
            HAlign::Center => "ACENTER"@,
            HAlign::Right => "ARIGHT"@,
        }
    }
}

/// A direction; what it orients depends on its point of use.
#[derive(Clone, Copy, PartialEq, Eq, Structural, Debug)]
pub enum Orientation {
    /// Top to bottom.
    Vertical,
    /// Left to right.
    Horizontal,
}

impl Orientation {
    /// The constant the native toolkit stores for this orientation.
    pub fn as_cstr(self) -> (r: &'static str)
        ensures
            r@ == self.value_spec(),
    {
        match self {
            Orientation::Vertical => "VERTICAL",
            Orientation::Horizontal => "HORIZONTAL",
        }
    }

    /// The constant's text.
    pub open spec fn value_spec(self) -> Seq<char> {
        match self {
            Orientation::Vertical => "VERTICAL"@,
            Orientation::Horizontal => "HORIZONTAL"@,
        }
    }
}

/// What a finished container construction guarantees about its children:
/// every child hangs under the container, and each position in the argument
/// list that is the last occurrence of its handle fixes that child's index.
pub open spec fn children_attached(
    pre: crate::native::NativeState,
    post: crate::native::NativeState,
    parent: int,
    children: Seq<BaseWidget>,
) -> bool {
    &&& forall|j: int|
        0 <= j < children.len() ==> post.parent_of(#[trigger] children[j].id()) == Some(
            parent as usize,
        )
    &&& forall|j: int|
        #![trigger children[j]]
        0 <= j < children.len() && (forall|k: int|
            j < k < children.len() ==> children[k].id() != children[j].id()) ==> post.obj(
            children[j].id(),
        ) == (NativeObject {
            parent: Some(parent as usize),
            child_index: j as usize,
            ..pre.obj(children[j].id())
        })
    &&& forall|i: int|
        #![trigger post.obj(i)]
        post.has(i) && i != parent && (forall|k: int|
            0 <= k < children.len() ==> children[k].id() != i) && pre.has(i) ==> post.obj(i)
            == pre.obj(i)
}

/// Attach every widget of `children` under `parent`, in order.
#[verifier::rlimit(100)]
fn attach_all(ctx: &mut KISSContext, parent: usize, children: &Vec<BaseWidget>)
    requires
        old(ctx).wf(),
        old(ctx).native.has(parent as int),
        old(ctx).native.alive(parent as int),
        forall|j: int| 0 <= j < children@.len() ==> (#[trigger] children@[j].id()) < parent,
    ensures
        final(ctx).wf(),
        *final(ctx) == (KISSContext { native: final(ctx).native, ..*old(ctx) }),
        final(ctx).native.count() == old(ctx).native.count(),
        final(ctx).native.obj(parent as int) == old(ctx).native.obj(parent as int),
        children_attached(old(ctx).native, final(ctx).native, parent as int, children@),
    decreases children@.len(),
{
    let n = children.len();
    let mut i: usize = 0;
    while i < n
        invariant
            i <= n,
            n == children@.len(),
            ctx.wf(),
            *ctx == (KISSContext { native: ctx.native, ..*old(ctx) }),
            ctx.native.count() == old(ctx).native.count(),
            0 <= (parent as int) < ctx.native.count(),
            forall|j: int| 0 <= j < n ==> (#[trigger] children@[j].id()) < parent,
            ctx.native.obj(parent as int) == old(ctx).native.obj(parent as int),
            old(ctx).native.alive(parent as int),
            forall|i2: int|
                #![trigger ctx.native.obj(i2)]
                ctx.native.has(i2) && (forall|k: int|
                    0 <= k < i ==> children@[k].id() != i2) ==> ctx.native.obj(i2) == old(ctx).native.obj(i2),
            forall|j: int|
                0 <= j < i ==> ctx.native.parent_of(#[trigger] children@[j].id()) == Some(parent),
            forall|j: int|
                #![trigger children@[j]]
                0 <= j < i && (forall|k: int| j < k < i ==> children@[k].id() != children@[j].id())
                    ==> ctx.native.obj(children@[j].id()) == (NativeObject {
                    parent: Some(parent),
                    child_index: j as usize,
                    ..old(ctx).native.obj(children@[j].id())
                }),
        decreases n - i,
    {
        let child = children[i];
        proof {
            assert(ctx.native.obj(parent as int) == old(ctx).native.obj(parent as int));
            assert(ctx.native.alive(parent as int) == old(ctx).native.alive(parent as int));
        }
        let ghost pre_iter = ctx.native;
        ctx.native.attach(child.raw, parent, i);
        proof {
            let c = children@;
            assert forall|i2: int|
                #![trigger ctx.native.obj(i2)]
                ctx.native.has(i2) && (forall|k: int| 0 <= k < i + 1 ==> c[k].id() != i2) implies
                ctx.native.obj(i2) == old(ctx).native.obj(i2) by {
                assert(c[i as int].id() != i2);
                assert(ctx.native.obj(i2) == pre_iter.obj(i2));
            };
            assert forall|j: int|
                0 <= j < i + 1 implies ctx.native.parent_of(#[trigger] c[j].id()) == Some(
                parent,
            ) by {
                if c[j].id() == c[i as int].id() {
                } else {
                    assert(ctx.native.obj(c[j].id()) == pre_iter.obj(c[j].id()));
                }
            };
            assert forall|j: int|
                #![trigger c[j]]
                0 <= j < i + 1 && (forall|k: int| j < k < i + 1 ==> c[k].id() != c[j].id())
                    implies ctx.native.obj(c[j].id()) == (NativeObject {
                    parent: Some(parent),
                    child_index: j as usize,
                    ..old(ctx).native.obj(c[j].id())
                }) by {
                if j == i {
                    assert(ctx.native.obj(c[j].id()) == (NativeObject {
                        parent: Some(parent),
                        child_index: i,
                        ..pre_iter.obj(c[j].id())
                    }));
                    if exists|k: int| 0 <= k < i && c[k].id() == c[j].id() {
                        let k = choose|k: int| 0 <= k < i && c[k].id() == c[j].id();
                        let k2 = lemma_last_occurrence(c, k, i as int);
                        assert(c[k2].id() == c[j].id());
                        assert(pre_iter.obj(c[k2].id()) == (NativeObject {
                            parent: Some(parent),
                            child_index: k2 as usize,
                            ..old(ctx).native.obj(c[k2].id())
                        }));
                    } else {
                        assert(forall|k: int| 0 <= k < i ==> c[k].id() != c[j].id());
                        assert(pre_iter.obj(c[j].id()) == old(ctx).native.obj(c[j].id()));
                    }
                } else {
                    assert(c[i as int].id() != c[j].id());
                    assert(ctx.native.obj(c[j].id()) == pre_iter.obj(c[j].id()));
                }
            };
        }
        i = i + 1;
    }
    proof {
        let c = children@;
        let pre = old(ctx).native;
        let post = ctx.native;
        assert forall|j: int|
            0 <= j < c.len() implies post.parent_of(#[trigger] c[j].id()) == Some(
            (parent as int) as usize,
        ) by {
            assert(post.parent_of(c[j].id()) == Some(parent));
        };
        assert forall|j: int|
            #![trigger c[j]]
            0 <= j < c.len() && (forall|k: int| j < k < c.len() ==> c[k].id() != c[j].id())
                implies post.obj(c[j].id()) == (NativeObject {
                parent: Some((parent as int) as usize),
                child_index: j as usize,
                ..pre.obj(c[j].id())
            }) by {};
        assert forall|i2: int|
            #![trigger post.obj(i2)]
            post.has(i2) && i2 != parent as int && (forall|k: int|
                0 <= k < c.len() ==> c[k].id() != i2) && pre.has(i2) implies post.obj(i2)
            == pre.obj(i2) by {};
        assert(children_attached(pre, post, parent as int, c));
    }
}

/// Create a container object of class `class` and attach `children` under
/// it in order.
fn new_container(ctx: &mut KISSContext, class: WidgetClass, children: &Vec<BaseWidget>) -> (r:
    Result<BaseWidget, KissError>)
    requires
        old(ctx).wf(),
        old(ctx).running ==> forall|j: int|
            0 <= j < children@.len() ==> (#[trigger] children@[j]).valid(*old(ctx)),
    ensures
        final(ctx).wf(),
        !old(ctx).running ==> r == Result::<BaseWidget, KissError>::Err(KissError::NotRunning)
            && *final(ctx) == *old(ctx),
        old(ctx).running ==> (r matches Ok(cont) && {
            &&& cont.id() == old(ctx).native.count()
            &&& *final(ctx) == (KISSContext { native: final(ctx).native, ..*old(ctx) })
            &&& final(ctx).native.count() == old(ctx).native.count() + 1
            &&& final(ctx).native.class_of(cont.id()) == class
            &&& final(ctx).native.alive(cont.id())
            &&& final(ctx).native.parent_of(cont.id()) is None
            &&& forall|m: Attr| final(ctx).native.str_attr(cont.id(), m) is None
            &&& children_attached(old(ctx).native, final(ctx).native, cont.id(), children@)
        }),
{
    if !ctx.is_running() {
        return Err(KissError::NotRunning);
    }
    let h = ctx.native.create(class);
    proof {
        assert forall|j: int|
            0 <= j < children@.len() implies (#[trigger] children@[j].id()) < h by {
            assert(children@[j].valid(*old(ctx)));
        };
    }
    let ghost mid = ctx.native;
    attach_all(ctx, h, children);
    proof {
        let pre0 = old(ctx).native;
        let post = ctx.native;
        let c = children@;
        assert forall|j: int|
            #![trigger c[j]]
            0 <= j < c.len() && (forall|k: int| j < k < c.len() ==> c[k].id() != c[j].id())
                implies post.obj(c[j].id()) == (NativeObject {
                parent: Some(h),
                child_index: j as usize,
                ..pre0.obj(c[j].id())
            }) by {
            assert(c[j].id() < h);
            assert(mid.obj(c[j].id()) == pre0.obj(c[j].id()));
        };
        assert forall|i2: int|
            #![trigger post.obj(i2)]
            post.has(i2) && i2 != h as int && (forall|k: int|
                0 <= k < c.len() ==> c[k].id() != i2) && pre0.has(i2) implies post.obj(i2)
            == pre0.obj(i2) by {
            assert(mid.has(i2));
            assert(mid.obj(i2) == pre0.obj(i2));
        };
        assert(children_attached(pre0, post, h as int, c));
    }
    Ok(BaseWidget { raw: h })
}

/// A builder for `Absolute`: collects children and fixes their coordinates
/// before the container is created.
pub struct AbsoluteBuilder {
    /// The children added so far, in order.
    pub handles: Vec<BaseWidget>,
}

impl AbsoluteBuilder {
    /// Start with no children.
    pub fn new() -> (r: AbsoluteBuilder)
        ensures
            r.handles@.len() == 0,
    {
        AbsoluteBuilder { handles: Vec::new() }
    }

    /// Add a child at the given coordinates, relative to the top-left
    /// corner of the container being built.
    pub fn add_child_at<W: Widget>(
        &mut self,
        ctx: &mut KISSContext,
        x: u32,
        y: u32,
        child: W,
    ) -> (r: Result<(), KissError>)
        requires
            old(ctx).wf(),
            old(ctx).running ==> child.base_spec().valid(*old(ctx)),
            x <= i32::MAX,
            y <= i32::MAX,
        ensures
            final(ctx).wf(),
            !old(ctx).running ==> r == Result::<(), KissError>::Err(KissError::NotRunning)
                && *final(ctx) == *old(ctx) && *final(self) == *old(self),
            old(ctx).running ==> {
                &&& r == Result::<(), KissError>::Ok(())
                &&& final(self).handles@ == old(self).handles@.push(child.base_spec())
                &&& *final(ctx) == (KISSContext { native: final(ctx).native, ..*old(ctx) })
                &&& final(ctx).native.count() == old(ctx).native.count()
                &&& final(ctx).native.obj(child.base_spec().id()) == (crate::native::NativeObject {
                    ints: final(ctx).native.obj(child.base_spec().id()).ints,
                    ..old(ctx).native.obj(child.base_spec().id())
                })
                &&& final(ctx).native.int_attr(child.base_spec().id(), Attr::Cx) == x as i32
                &&& final(ctx).native.int_attr(child.base_spec().id(), Attr::Cy) == y as i32
                &&& forall|i: int|
                    final(ctx).native.has(i) && i != child.base_spec().id() ==> final(ctx).native.obj(i) == old(ctx).native.obj(i)
            },
    {
        match Absolute::set_child_pos(ctx, x, y, child) {
            Ok(()) => {
                self.handles.push(child.to_base());
                Ok(())
            },
            Err(e) => Err(e),
        }
    }
}

/// A container that makes no effort to arrange its children: they are
/// positioned manually through the builder.
#[derive(Clone, Copy, PartialEq, Eq, Structural, Debug)]
pub struct Absolute(pub BaseWidget);

impl Widget for Absolute {
    open spec fn base_spec(self) -> BaseWidget {
        self.0
    }

    fn to_base(self) -> (r: BaseWidget) {
        self.0
    }
}

impl Downcast for Absolute {
    open spec fn classes() -> Set<WidgetClass> {
        set![WidgetClass::Cbox]
    }

    fn can_downcast(base: &BaseWidget, ctx: &KISSContext) -> (r: bool) {
        matches!(base.classname(ctx), WidgetClass::Cbox)
    }

    fn downcast(base: BaseWidget) -> (r: Absolute) {
        Absolute(base)
    }
}

impl Absolute {
    /// Create an absolutely positioned container holding the children the
    /// builder collected.
    pub fn new(ctx: &mut KISSContext, builder: AbsoluteBuilder) -> (r: Result<Absolute, KissError>)
        requires
            old(ctx).wf(),
            old(ctx).running ==> forall|j: int|
                0 <= j < builder.handles@.len() ==> (#[trigger] builder.handles@[j]).valid(
                    *old(ctx),
                ),
        ensures
            final(ctx).wf(),
            !old(ctx).running ==> r == Result::<Absolute, KissError>::Err(KissError::NotRunning)
                && *final(ctx) == *old(ctx),
            old(ctx).running ==> (r matches Ok(a) && {
                &&& a.0.id() == old(ctx).native.count()
                &&& *final(ctx) == (KISSContext { native: final(ctx).native, ..*old(ctx) })
                &&& final(ctx).native.count() == old(ctx).native.count() + 1
                &&& final(ctx).native.class_of(a.0.id()) == WidgetClass::Cbox
                &&& final(ctx).native.alive(a.0.id())
                &&& final(ctx).native.parent_of(a.0.id()) is None
                &&& children_attached(
                    old(ctx).native,
                    final(ctx).native,
                    a.0.id(),
                    builder.handles@,
                )
            }),
    {
        match new_container(ctx, WidgetClass::Cbox, &builder.handles) {
            Ok(base) => Ok(Absolute(base)),
            Err(e) => Err(e),
        }
    }

    /// Set the position of a child of an `Absolute`, relative to the
    /// container's top-left corner.
    pub fn set_child_pos<W: Widget>(ctx: &mut KISSContext, x: u32, y: u32, child: W) -> (r: Result<
        (),
        KissError,
    >)
        requires
            old(ctx).wf(),
            old(ctx).running ==> child.base_spec().valid(*old(ctx)),
            x <= i32::MAX,
            y <= i32::MAX,
        ensures
            final(ctx).wf(),
            !old(ctx).running ==> r == Result::<(), KissError>::Err(KissError::NotRunning)
                && *final(ctx) == *old(ctx),
            old(ctx).running ==> {
                &&& r == Result::<(), KissError>::Ok(())
                &&& *final(ctx) == (KISSContext { native: final(ctx).native, ..*old(ctx) })
                &&& final(ctx).native.count() == old(ctx).native.count()
                &&& final(ctx).native.obj(child.base_spec().id()) == (crate::native::NativeObject {
                    ints: final(ctx).native.obj(child.base_spec().id()).ints,
                    ..old(ctx).native.obj(child.base_spec().id())
                })
                &&& final(ctx).native.int_attr(child.base_spec().id(), Attr::Cx) == x as i32
                &&& final(ctx).native.int_attr(child.base_spec().id(), Attr::Cy) == y as i32
                &&& forall|i: int|
                    final(ctx).native.has(i) && i != child.base_spec().id() ==> final(ctx).native.obj(i) == old(ctx).native.obj(i)
            },
    {
        let base = child.to_base();
        match base.set_int_attribute(ctx, Attr::Cx, x as i32) {
            Ok(()) => base.set_int_attribute(ctx, Attr::Cy, y as i32),
            Err(e) => Err(e),
        }
    }
}

/// A container that lines its children up from left to right.
#[derive(Clone, Copy, PartialEq, Eq, Structural, Debug)]
pub struct Horizontal(pub BaseWidget);

impl Widget for Horizontal {
    open spec fn base_spec(self) -> BaseWidget {
        self.0
    }

    fn to_base(self) -> (r: BaseWidget) {
        self.0
    }
}

impl Downcast for Horizontal {
    open spec fn classes() -> Set<WidgetClass> {
        set![WidgetClass::Hbox]
    }

    fn can_downcast(base: &BaseWidget, ctx: &KISSContext) -> (r: bool) {
        matches!(base.classname(ctx), WidgetClass::Hbox)
    }

    fn downcast(base: BaseWidget) -> (r: Horizontal) {
        Horizontal(base)
    }
}

impl Horizontal {
    /// Create a horizontal container holding `children` in order; the list
    /// may be empty.
    pub fn new(ctx: &mut KISSContext, children: &Vec<BaseWidget>) -> (r: Result<
        Horizontal,
        KissError,
    >)
        requires
            old(ctx).wf(),
            old(ctx).running ==> forall|j: int|
                0 <= j < children@.len() ==> (#[trigger] children@[j]).valid(*old(ctx)),
        ensures
            final(ctx).wf(),
            !old(ctx).running ==> r == Result::<Horizontal, KissError>::Err(KissError::NotRunning)
                && *final(ctx) == *old(ctx),
            old(ctx).running ==> (r matches Ok(hb) && {
                &&& hb.0.id() == old(ctx).native.count()
                &&& *final(ctx) == (KISSContext { native: final(ctx).native, ..*old(ctx) })
                &&& final(ctx).native.count() == old(ctx).native.count() + 1
                &&& final(ctx).native.class_of(hb.0.id()) == WidgetClass::Hbox
                &&& final(ctx).native.alive(hb.0.id())
                &&& final(ctx).native.parent_of(hb.0.id()) is None
                &&& children_attached(old(ctx).native, final(ctx).native, hb.0.id(), children@)
            }),
    {
        match new_container(ctx, WidgetClass::Hbox, children) {
            Ok(base) => Ok(Horizontal(base)),
            Err(e) => Err(e),
        }
    }

    /// Set the vertical alignment of the children.
    pub fn set_valign(self, ctx: &mut KISSContext, valign: VAlign) -> (r: Result<
        Horizontal,
        KissError,
    >)
        requires
            old(ctx).wf(),
            old(ctx).running ==> self.0.valid(*old(ctx)),
        ensures
            final(ctx).wf(),
            !old(ctx).running ==> r == Result::<Horizontal, KissError>::Err(KissError::NotRunning)
                && *final(ctx) == *old(ctx),
            old(ctx).running && old(ctx).refcount(self.0, Attr::AlignmentVert) > 0 ==> r
                == Result::<Horizontal, KissError>::Err(KissError::BorrowViolation) && *final(ctx)
                == *old(ctx),
            old(ctx).running && old(ctx).refcount(self.0, Attr::AlignmentVert) == 0 ==> {
                &&& r == Result::<Horizontal, KissError>::Ok(self)
                &&& *final(ctx) == (KISSContext { native: final(ctx).native, ..*old(ctx) })
                &&& final(ctx).native.count() == old(ctx).native.count()
                &&& final(ctx).native.obj(self.0.id()) == (crate::native::NativeObject {
                    strs: final(ctx).native.obj(self.0.id()).strs,
                    ..old(ctx).native.obj(self.0.id())
                })
                &&& final(ctx).native.str_attr(self.0.id(), Attr::AlignmentVert) == Some(
                    valign.value_spec(),
                )
                &&& forall|i: int|
                    final(ctx).native.has(i) && i != self.0.id() ==> final(ctx).native.obj(i)
                        == old(ctx).native.obj(i)
            },
    {
        match self.0.set_const_str_attribute(ctx, Attr::AlignmentVert, valign.as_cstr()) {
            Ok(()) => Ok(self),
            Err(e) => Err(e),
        }
    }

    /// Set the spacing between neighbouring children, in pixels.
    pub fn set_elem_spacing_pixels(self, ctx: &mut KISSContext, spacing: u32) -> (r: Result<
        Horizontal,
        KissError,
    >)
        requires
            old(ctx).wf(),
            old(ctx).running ==> self.0.valid(*old(ctx)),
            spacing <= i32::MAX,
        ensures
            final(ctx).wf(),
            !old(ctx).running ==> r == Result::<Horizontal, KissError>::Err(KissError::NotRunning)
                && *final(ctx) == *old(ctx),
            old(ctx).running ==> {
                &&& r == Result::<Horizontal, KissError>::Ok(self)
                &&& *final(ctx) == (KISSContext { native: final(ctx).native, ..*old(ctx) })
                &&& final(ctx).native.count() == old(ctx).native.count()
                &&& final(ctx).native.obj(self.0.id()) == (crate::native::NativeObject {
                    ints: final(ctx).native.obj(self.0.id()).ints,
                    ..old(ctx).native.obj(self.0.id())
                })
                &&& final(ctx).native.int_attr(self.0.id(), Attr::Gap) == spacing as i32
                &&& forall|i: int|
                    final(ctx).native.has(i) && i != self.0.id() ==> final(ctx).native.obj(i)
                        == old(ctx).native.obj(i)
            },
    {
        match self.0.set_int_attribute(ctx, Attr::Gap, spacing as i32) {
            Ok(()) => Ok(self),
            Err(e) => Err(e),
        }
    }
}

/// A container that lines its children up from top to bottom.
#[derive(Clone, Copy, PartialEq, Eq, Structural, Debug)]
pub struct Vertical(pub BaseWidget);

impl Widget for Vertical {
    open spec fn base_spec(self) -> BaseWidget {
        self.0
    }

    fn to_base(self) -> (r: BaseWidget) {
        self.0
    }
}

impl Downcast for Vertical {
    open spec fn classes() -> Set<WidgetClass> {
        set![WidgetClass::Vbox]
    }

    fn can_downcast(base: &BaseWidget, ctx: &KISSContext) -> (r: bool) {
        matches!(base.classname(ctx), WidgetClass::Vbox)
    }

    fn downcast(base: BaseWidget) -> (r: Vertical) {
        Vertical(base)
    }
}

impl Vertical {
    /// Create a vertical container holding `children` in order; the list
    /// may be empty.
    pub fn new(ctx: &mut KISSContext, children: &Vec<BaseWidget>) -> (r: Result<
        Vertical,
        KissError,
    >)
        requires
            old(ctx).wf(),
            old(ctx).running ==> forall|j: int|
                0 <= j < children@.len() ==> (#[trigger] children@[j]).valid(*old(ctx)),
        ensures
            final(ctx).wf(),
            !old(ctx).running ==> r == Result::<Vertical, KissError>::Err(KissError::NotRunning)
                && *final(ctx) == *old(ctx),
            old(ctx).running ==> (r matches Ok(vb) && {
                &&& vb.0.id() == old(ctx).native.count()
                &&& *final(ctx) == (KISSContext { native: final(ctx).native, ..*old(ctx) })
                &&& final(ctx).native.count() == old(ctx).native.count() + 1
                &&& final(ctx).native.class_of(vb.0.id()) == WidgetClass::Vbox
                &&& final(ctx).native.alive(vb.0.id())
                &&& final(ctx).native.parent_of(vb.0.id()) is None
                &&& children_attached(old(ctx).native, final(ctx).native, vb.0.id(), children@)
            }),
    {
        match new_container(ctx, WidgetClass::Vbox, children) {
            Ok(base) => Ok(Vertical(base)),
            Err(e) => Err(e),
        }
    }

    /// Set the horizontal alignment of the children.
    pub fn set_halign(self, ctx: &mut KISSContext, halign: HAlign) -> (r: Result<
        Vertical,
        KissError,
    >)
        requires
            old(ctx).wf(),
            old(ctx).running ==> self.0.valid(*old(ctx)),
        ensures
            final(ctx).wf(),
            !old(ctx).running ==> r == Result::<Vertical, KissError>::Err(KissError::NotRunning)
                && *final(ctx) == *old(ctx),
            old(ctx).running && old(ctx).refcount(self.0, Attr::AlignmentHori) > 0 ==> r
                == Result::<Vertical, KissError>::Err(KissError::BorrowViolation) && *final(ctx)
                == *old(ctx),
            old(ctx).running && old(ctx).refcount(self.0, Attr::AlignmentHori) == 0 ==> {
                &&& r == Result::<Vertical, KissError>::Ok(self)
                &&& *final(ctx) == (KISSContext { native: final(ctx).native, ..*old(ctx) })
                &&& final(ctx).native.count() == old(ctx).native.count()
                &&& final(ctx).native.obj(self.0.id()) == (crate::native::NativeObject {
                    strs: final(ctx).native.obj(self.0.id()).strs,
                    ..old(ctx).native.obj(self.0.id())
                })
                &&& final(ctx).native.str_attr(self.0.id(), Attr::AlignmentHori) == Some(
                    halign.value_spec(),
                )
                &&& forall|i: int|
                    final(ctx).native.has(i) && i != self.0.id() ==> final(ctx).native.obj(i)
                        == old(ctx).native.obj(i)
            },
    {
        match self.0.set_const_str_attribute(ctx, Attr::AlignmentHori, halign.as_cstr()) {
            Ok(()) => Ok(self),
            Err(e) => Err(e),
        }
    }

    /// Set the spacing between neighbouring children, in pixels.
    pub fn set_elem_spacing_pixels(self, ctx: &mut KISSContext, spacing: u32) -> (r: Result<
        Vertical,
        KissError,
    >)
        requires
            old(ctx).wf(),
            old(ctx).running ==> self.0.valid(*old(ctx)),
            spacing <= i32::MAX,
        ensures
            final(ctx).wf(),
            !old(ctx).running ==> r == Result::<Vertical, KissError>::Err(KissError::NotRunning)
                && *final(ctx) == *old(ctx),
            old(ctx).running ==> {
                &&& r == Result::<Vertical, KissError>::Ok(self)
                &&& *final(ctx) == (KISSContext { native: final(ctx).native, ..*old(ctx) })
                &&& final(ctx).native.count() == old(ctx).native.count()
                &&& final(ctx).native.obj(self.0.id()) == (crate::native::NativeObject {
                    ints: final(ctx).native.obj(self.0.id()).ints,
                    ..old(ctx).native.obj(self.0.id())
                })
                &&& final(ctx).native.int_attr(self.0.id(), Attr::Gap) == spacing as i32
                &&& forall|i: int|
                    final(ctx).native.has(i) && i != self.0.id() ==> final(ctx).native.obj(i)
                        == old(ctx).native.obj(i)
            },
    {
        match self.0.set_int_attribute(ctx, Attr::Gap, spacing as i32) {
            Ok(()) => Ok(self),
            Err(e) => Err(e),
        }
    }
}

/// A container that arranges its children in a grid, filling rows or
/// columns first depending on its orientation.
#[derive(Clone, Copy, PartialEq, Eq, Structural, Debug)]
pub struct Grid(pub BaseWidget);

impl Widget for Grid {
    open spec fn base_spec(self) -> BaseWidget {
        self.0
    }

    fn to_base(self) -> (r: BaseWidget) {
        self.0
    }
}

impl Downcast for Grid {
    open spec fn classes() -> Set<WidgetClass> {
        set![WidgetClass::Matrix]
    }

    fn can_downcast(base: &BaseWidget, ctx: &KISSContext) -> (r: bool) {
        matches!(base.classname(ctx), WidgetClass::Matrix)
    }

    fn downcast(base: BaseWidget) -> (r: Grid) {
        Grid(base)
    }
}

impl Grid {
    /// Create a grid container holding `children` in order; the list may be
    /// empty.
    pub fn new(ctx: &mut KISSContext, children: &Vec<BaseWidget>) -> (r: Result<Grid, KissError>)
        requires
            old(ctx).wf(),
            old(ctx).running ==> forall|j: int|
                0 <= j < children@.len() ==> (#[trigger] children@[j]).valid(*old(ctx)),
        ensures
            final(ctx).wf(),
            !old(ctx).running ==> r == Result::<Grid, KissError>::Err(KissError::NotRunning)
                && *final(ctx) == *old(ctx),
            old(ctx).running ==> (r matches Ok(g) && {
                &&& g.0.id() == old(ctx).native.count()
                &&& *final(ctx) == (KISSContext { native: final(ctx).native, ..*old(ctx) })
                &&& final(ctx).native.count() == old(ctx).native.count() + 1
                &&& final(ctx).native.class_of(g.0.id()) == WidgetClass::Matrix
                &&& final(ctx).native.alive(g.0.id())
                &&& final(ctx).native.parent_of(g.0.id()) is None
                &&& children_attached(old(ctx).native, final(ctx).native, g.0.id(), children@)
            }),
    {
        match new_container(ctx, WidgetClass::Matrix, children) {
            Ok(base) => Ok(Grid(base)),
            Err(e) => Err(e),
        }
    }

    /// Set the vertical alignment of the children.
    pub fn set_valign(self, ctx: &mut KISSContext, valign: VAlign) -> (r: Result<Grid, KissError>)
        requires
            old(ctx).wf(),
            old(ctx).running ==> self.0.valid(*old(ctx)),
        ensures
            final(ctx).wf(),
            !old(ctx).running ==> r == Result::<Grid, KissError>::Err(KissError::NotRunning)
                && *final(ctx) == *old(ctx),
            old(ctx).running && old(ctx).refcount(self.0, Attr::AlignmentVert) > 0 ==> r
                == Result::<Grid, KissError>::Err(KissError::BorrowViolation) && *final(ctx)
                == *old(ctx),
            old(ctx).running && old(ctx).refcount(self.0, Attr::AlignmentVert) == 0 ==> {
                &&& r == Result::<Grid, KissError>::Ok(self)
                &&& *final(ctx) == (KISSContext { native: final(ctx).native, ..*old(ctx) })
                &&& final(ctx).native.count() == old(ctx).native.count()
                &&& final(ctx).native.obj(self.0.id()) == (crate::native::NativeObject {
                    strs: final(ctx).native.obj(self.0.id()).strs,
                    ..old(ctx).native.obj(self.0.id())
                })
                &&& final(ctx).native.str_attr(self.0.id(), Attr::AlignmentVert) == Some(
                    valign.value_spec(),
                )
                &&& forall|i: int|
                    final(ctx).native.has(i) && i != self.0.id() ==> final(ctx).native.obj(i)
                        == old(ctx).native.obj(i)
            },
    {
        match self.0.set_const_str_attribute(ctx, Attr::AlignmentVert, valign.as_cstr()) {
            Ok(()) => Ok(self),
            Err(e) => Err(e),
        }
    }

    /// Set the horizontal alignment of the children.
    pub fn set_halign(self, ctx: &mut KISSContext, halign: HAlign) -> (r: Result<Grid, KissError>)
        requires
            old(ctx).wf(),
            old(ctx).running ==> self.0.valid(*old(ctx)),
        ensures
            final(ctx).wf(),
            !old(ctx).running ==> r == Result::<Grid, KissError>::Err(KissError::NotRunning)
                && *final(ctx) == *old(ctx),
            old(ctx).running && old(ctx).refcount(self.0, Attr::AlignmentHori) > 0 ==> r
                == Result::<Grid, KissError>::Err(KissError::BorrowViolation) && *final(ctx)
                == *old(ctx),
            old(ctx).running && old(ctx).refcount(self.0, Attr::AlignmentHori) == 0 ==> {
                &&& r == Result::<Grid, KissError>::Ok(self)
                &&& *final(ctx) == (KISSContext { native: final(ctx).native, ..*old(ctx) })
                &&& final(ctx).native.count() == old(ctx).native.count()
                &&& final(ctx).native.obj(self.0.id()) == (crate::native::NativeObject {
                    strs: final(ctx).native.obj(self.0.id()).strs,
                    ..old(ctx).native.obj(self.0.id())
                })
                &&& final(ctx).native.str_attr(self.0.id(), Attr::AlignmentHori) == Some(
                    halign.value_spec(),
                )
                &&& forall|i: int|
                    final(ctx).native.has(i) && i != self.0.id() ==> final(ctx).native.obj(i)
                        == old(ctx).native.obj(i)
            },
    {
        match self.0.set_const_str_attribute(ctx, Attr::AlignmentHori, halign.as_cstr()) {
            Ok(()) => Ok(self),
            Err(e) => Err(e),
        }
    }

    /// Set how many children are placed in a row (horizontal orientation)
    /// or column (vertical orientation) before the next one begins.
    pub fn set_ndiv(self, ctx: &mut KISSContext, ndiv: u32) -> (r: Result<Grid, KissError>)
        requires
            old(ctx).wf(),
            old(ctx).running ==> self.0.valid(*old(ctx)),
            ndiv <= i32::MAX,
        ensures
            final(ctx).wf(),
            !old(ctx).running ==> r == Result::<Grid, KissError>::Err(KissError::NotRunning)
                && *final(ctx) == *old(ctx),
            old(ctx).running ==> {
                &&& r == Result::<Grid, KissError>::Ok(self)
                &&& *final(ctx) == (KISSContext { native: final(ctx).native, ..*old(ctx) })
                &&& final(ctx).native.count() == old(ctx).native.count()
                &&& final(ctx).native.obj(self.0.id()) == (crate::native::NativeObject {
                    ints: final(ctx).native.obj(self.0.id()).ints,
                    ..old(ctx).native.obj(self.0.id())
                })
                &&& final(ctx).native.int_attr(self.0.id(), Attr::NumDiv) == ndiv as i32
                &&& forall|i: int|
                    final(ctx).native.has(i) && i != self.0.id() ==> final(ctx).native.obj(i)
                        == old(ctx).native.obj(i)
            },
    {
        match self.0.set_int_attribute(ctx, Attr::NumDiv, ndiv as i32) {
            Ok(()) => Ok(self),
            Err(e) => Err(e),
        }
    }

    /// Set how children are distributed: a vertical grid fills columns
    /// first, a horizontal one rows first.
    pub fn set_orientation(self, ctx: &mut KISSContext, orientation: Orientation) -> (r: Result<
        Grid,
        KissError,
    >)
        requires
            old(ctx).wf(),
            old(ctx).running ==> self.0.valid(*old(ctx)),
        ensures
            final(ctx).wf(),
            !old(ctx).running ==> r == Result::<Grid, KissError>::Err(KissError::NotRunning)
                && *final(ctx) == *old(ctx),
            old(ctx).running && old(ctx).refcount(self.0, Attr::Orientation) > 0 ==> r == Result::<
                Grid,
                KissError,
            >::Err(KissError::BorrowViolation) && *final(ctx) == *old(ctx),
            old(ctx).running && old(ctx).refcount(self.0, Attr::Orientation) == 0 ==> {
                &&& r == Result::<Grid, KissError>::Ok(self)
                &&& *final(ctx) == (KISSContext { native: final(ctx).native, ..*old(ctx) })
                &&& final(ctx).native.count() == old(ctx).native.count()
                &&& final(ctx).native.obj(self.0.id()) == (crate::native::NativeObject {
                    strs: final(ctx).native.obj(self.0.id()).strs,
                    ..old(ctx).native.obj(self.0.id())
                })
                &&& final(ctx).native.str_attr(self.0.id(), Attr::Orientation) == Some(
                    orientation.value_spec(),
                )
                &&& forall|i: int|
                    final(ctx).native.has(i) && i != self.0.id() ==> final(ctx).native.obj(i)
                        == old(ctx).native.obj(i)
            },
    {
        match self.0.set_const_str_attribute(ctx, Attr::Orientation, orientation.as_cstr()) {
            Ok(()) => Ok(self),
            Err(e) => Err(e),
        }
    }
}

/// The latest position of each handle among the children: the last
/// occurrence of `c[k].id()` before `bound`.
proof fn lemma_last_occurrence(c: Seq<BaseWidget>, k: int, bound: int) -> (k2: int)
    requires
        0 <= k < bound <= c.len(),
    ensures
        k <= k2 < bound,
        c[k2].id() == c[k].id(),
        forall|k3: int| k2 < k3 < bound ==> c[k3].id() != c[k].id(),
    decreases bound - k,
{
    if exists|k3: int| k < k3 < bound && c[k3].id() == c[k].id() {
        let k3 = choose|k3: int| k < k3 < bound && c[k3].id() == c[k].id();
        lemma_last_occurrence(c, k3, bound)
    } else {
        k
    }
}

} // verus!
