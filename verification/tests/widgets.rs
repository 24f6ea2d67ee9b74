//! The typed widget surface: attribute setters and getters, containers,
//! images, the tree queries and the move cell.

use kiss_ui::attrs::Attr;
use kiss_ui::attrs::bool_yes_no;
use kiss_ui::base::BaseWidget;
use kiss_ui::button::Button;
use kiss_ui::container::AbsoluteBuilder;
use kiss_ui::container::Absolute;
use kiss_ui::container::Grid;
use kiss_ui::container::HAlign;
use kiss_ui::container::Horizontal;
use kiss_ui::container::Orientation;
use kiss_ui::container::VAlign;
use kiss_ui::container::Vertical;
use kiss_ui::context::KISSContext;
use kiss_ui::context::KissError;
use kiss_ui::dialog::AlertPopupBuilder;
use kiss_ui::dialog::Dialog;
use kiss_ui::dialog::message_popup;
use kiss_ui::image::Image;
use kiss_ui::image::ImageContainer;
use kiss_ui::move_cell::MoveCell;
use kiss_ui::progress::ProgressBar;
use kiss_ui::text::Label;
use kiss_ui::text::TextBox;
use kiss_ui::widget::Widget;

fn str_attr_of(ctx: &mut KISSContext, w: BaseWidget, name: Attr) -> Option<String> {
    match w.get_str_attribute(ctx, name).unwrap() {
        Some(view) => {
            let text = view.data.clone();
            view.release(ctx);
            Some(text)
        }
        None => None,
    }
}

#[test]
fn sentinel_constants() {
    assert_eq!(bool_yes_no(true), "YES");
    assert_eq!(bool_yes_no(false), "NO");
    assert_eq!(VAlign::Top.as_cstr(), "ATOP");
    assert_eq!(VAlign::Center.as_cstr(), "ACENTER");
    assert_eq!(VAlign::Bottom.as_cstr(), "ABOTTOM");
    assert_eq!(HAlign::Left.as_cstr(), "ALEFT");
    assert_eq!(HAlign::Center.as_cstr(), "ACENTER");
    assert_eq!(HAlign::Right.as_cstr(), "ARIGHT");
    assert_eq!(Orientation::Vertical.as_cstr(), "VERTICAL");
    assert_eq!(Orientation::Horizontal.as_cstr(), "HORIZONTAL");
}

#[test]
fn dialog_title_and_size() {
    let mut ctx = KISSContext::new();
    ctx.open().unwrap();
    let d = Dialog::empty(&mut ctx).unwrap();
    let d = d.set_title(&mut ctx, "My Window").unwrap();
    let d = d.set_size_pixels(&mut ctx, 640, 480).unwrap();
    assert_eq!(
        str_attr_of(&mut ctx, d.to_base(), Attr::Title).as_deref(),
        Some("My Window")
    );
    assert_eq!(d.to_base().get_size_pixels(&ctx), Ok((640, 480)));
    ctx.close();
}

#[test]
fn position_roundtrip_and_defaults() {
    let mut ctx = KISSContext::new();
    ctx.open().unwrap();
    let b = Button::new(&mut ctx).unwrap();
    assert_eq!(b.to_base().get_position(&ctx), Ok((0, 0)));
    let base = b.to_base().set_position(&mut ctx, 12, -7).unwrap();
    assert_eq!(base.get_position(&ctx), Ok((12, -7)));
    assert_eq!(base.get_int_attribute(&ctx, Attr::Gap), Ok(0));
    ctx.close();
}

#[test]
fn visibility_and_enabled_state() {
    let mut ctx = KISSContext::new();
    ctx.open().unwrap();
    let b = Button::new(&mut ctx).unwrap();
    let base = b.to_base();
    assert_eq!(str_attr_of(&mut ctx, base, Attr::Visible), None);
    base.show(&mut ctx).unwrap();
    assert_eq!(str_attr_of(&mut ctx, base, Attr::Visible).as_deref(), Some("YES"));
    base.hide_widget(&mut ctx).unwrap();
    assert_eq!(str_attr_of(&mut ctx, base, Attr::Visible).as_deref(), Some("NO"));
    base.set_visible(&mut ctx, true).unwrap();
    assert_eq!(str_attr_of(&mut ctx, base, Attr::Visible).as_deref(), Some("YES"));
    base.set_enabled(&mut ctx, false).unwrap();
    assert_eq!(str_attr_of(&mut ctx, base, Attr::Active).as_deref(), Some("NO"));
    ctx.close();
}

#[test]
fn textbox_attributes() {
    let mut ctx = KISSContext::new();
    ctx.open().unwrap();
    let t = TextBox::new(&mut ctx).unwrap();
    let t = t.set_multiline(&mut ctx, true).unwrap();
    let t = t.set_visible_columns(&mut ctx, 40).unwrap();
    let t = t.set_visible_lines(&mut ctx, 5).unwrap();
    t.set_text(&mut ctx, "hello").unwrap();
    assert_eq!(str_attr_of(&mut ctx, t.to_base(), Attr::Multiline).as_deref(), Some("YES"));
    assert_eq!(t.to_base().get_int_attribute(&ctx, Attr::VisibleColumns), Ok(40));
    assert_eq!(t.to_base().get_int_attribute(&ctx, Attr::VisibleLines), Ok(5));
    let v = t.get_text(&mut ctx).unwrap().unwrap();
    assert_eq!(v.as_str(), "hello");
    v.release(&mut ctx);
    ctx.close();
}

#[test]
fn progress_bar_attributes() {
    let mut ctx = KISSContext::new();
    ctx.open().unwrap();
    let p = ProgressBar::new(&mut ctx).unwrap();
    let p = p.set_indefinite(&mut ctx, true).unwrap();
    let p = p.set_dashed(&mut ctx, false).unwrap();
    let p = p.set_orientation(&mut ctx, Orientation::Horizontal).unwrap();
    assert_eq!(str_attr_of(&mut ctx, p.to_base(), Attr::Marquee).as_deref(), Some("YES"));
    assert_eq!(str_attr_of(&mut ctx, p.to_base(), Attr::Dashed).as_deref(), Some("NO"));
    assert_eq!(
        str_attr_of(&mut ctx, p.to_base(), Attr::Orientation).as_deref(),
        Some("HORIZONTAL")
    );
    ctx.close();
}

#[test]
fn containers_parent_their_children_in_order() {
    let mut ctx = KISSContext::new();
    ctx.open().unwrap();
    let a = Button::new(&mut ctx).unwrap();
    let b = Button::new(&mut ctx).unwrap();
    let c = Label::new(&mut ctx, "x").unwrap();
    let row = Horizontal::new(
        &mut ctx,
        &vec![a.to_base(), b.to_base(), c.to_base()],
    )
    .unwrap();
    assert_eq!(a.to_base().get_parent(&ctx), Ok(Some(row.to_base())));
    assert_eq!(b.to_base().get_parent(&ctx), Ok(Some(row.to_base())));
    assert_eq!(a.to_base().get_sibling(&ctx), Ok(Some(b.to_base())));
    assert_eq!(b.to_base().get_sibling(&ctx), Ok(Some(c.to_base())));
    assert_eq!(c.to_base().get_sibling(&ctx), Ok(None));
    assert_eq!(row.to_base().get_parent(&ctx), Ok(None));

    let row = row.set_valign(&mut ctx, VAlign::Center).unwrap();
    let row = row.set_elem_spacing_pixels(&mut ctx, 4).unwrap();
    assert_eq!(
        str_attr_of(&mut ctx, row.to_base(), Attr::AlignmentVert).as_deref(),
        Some("ACENTER")
    );
    assert_eq!(row.to_base().get_int_attribute(&ctx, Attr::Gap), Ok(4));
    ctx.close();
}

#[test]
fn vertical_and_grid_settings() {
    let mut ctx = KISSContext::new();
    ctx.open().unwrap();
    let a = Button::new(&mut ctx).unwrap();
    let col = Vertical::new(&mut ctx, &vec![a.to_base()]).unwrap();
    let col = col.set_halign(&mut ctx, HAlign::Right).unwrap();
    let col = col.set_elem_spacing_pixels(&mut ctx, 2).unwrap();
    assert_eq!(
        str_attr_of(&mut ctx, col.to_base(), Attr::AlignmentHori).as_deref(),
        Some("ARIGHT")
    );
    assert_eq!(col.to_base().get_int_attribute(&ctx, Attr::Gap), Ok(2));

    let g1 = Button::new(&mut ctx).unwrap();
    let g2 = Button::new(&mut ctx).unwrap();
    let grid = Grid::new(&mut ctx, &vec![g1.to_base(), g2.to_base()]).unwrap();
    let grid = grid.set_valign(&mut ctx, VAlign::Top).unwrap();
    let grid = grid.set_halign(&mut ctx, HAlign::Left).unwrap();
    let grid = grid.set_ndiv(&mut ctx, 3).unwrap();
    let grid = grid.set_orientation(&mut ctx, Orientation::Vertical).unwrap();
    assert_eq!(grid.to_base().get_int_attribute(&ctx, Attr::NumDiv), Ok(3));
    assert_eq!(
        str_attr_of(&mut ctx, grid.to_base(), Attr::Orientation).as_deref(),
        Some("VERTICAL")
    );
    assert_eq!(g1.to_base().get_parent(&ctx), Ok(Some(grid.to_base())));
    ctx.close();
}

#[test]
fn absolute_container_positions_children() {
    let mut ctx = KISSContext::new();
    ctx.open().unwrap();
    let a = Button::new(&mut ctx).unwrap();
    let b = Button::new(&mut ctx).unwrap();
    let mut builder = AbsoluteBuilder::new();
    builder.add_child_at(&mut ctx, 10, 20, a).unwrap();
    builder.add_child_at(&mut ctx, 30, 40, b).unwrap();
    let abs = Absolute::new(&mut ctx, builder).unwrap();
    assert_eq!(a.to_base().get_int_attribute(&ctx, Attr::Cx), Ok(10));
    assert_eq!(a.to_base().get_int_attribute(&ctx, Attr::Cy), Ok(20));
    assert_eq!(b.to_base().get_int_attribute(&ctx, Attr::Cx), Ok(30));
    assert_eq!(b.to_base().get_int_attribute(&ctx, Attr::Cy), Ok(40));
    assert_eq!(a.to_base().get_parent(&ctx), Ok(Some(abs.to_base())));
    assert_eq!(a.to_base().get_sibling(&ctx), Ok(Some(b.to_base())));
    ctx.close();
}

#[test]
fn widget_tree_reaches_the_dialog() {
    let mut ctx = KISSContext::new();
    ctx.open().unwrap();
    let b = Button::new(&mut ctx).unwrap();
    let row = Horizontal::new(&mut ctx, &vec![b.to_base()]).unwrap();
    let d = Dialog::new(&mut ctx, row).unwrap();
    assert_eq!(b.to_base().get_dialog(&ctx), Ok(Some(d)));
    // A free-standing widget hangs under no dialog.
    let lone = Button::new(&mut ctx).unwrap();
    assert_eq!(lone.to_base().get_dialog(&ctx), Ok(None));
    ctx.close();
}

#[test]
fn destroy_kills_the_whole_subtree() {
    let mut ctx = KISSContext::new();
    ctx.open().unwrap();
    let b = Button::new(&mut ctx).unwrap();
    let row = Horizontal::new(&mut ctx, &vec![b.to_base()]).unwrap();
    let d = Dialog::new(&mut ctx, row).unwrap();
    assert!(b.to_base().is_alive(&ctx));
    d.destroy(&mut ctx).unwrap();
    assert!(!d.to_base().is_alive(&ctx));
    assert!(!row.to_base().is_alive(&ctx));
    assert!(!b.to_base().is_alive(&ctx));
    ctx.close();
}

#[test]
fn attaching_an_image_destroys_the_previous_one() {
    let mut ctx = KISSContext::new();
    ctx.open().unwrap();
    let pixels = vec![(0u8, 0u8, 0u8); 6];
    let img1 = Image::new_rgb(&mut ctx, 3, 2, &pixels).unwrap();
    let rgba = vec![(1u8, 2u8, 3u8, 4u8); 4];
    let img2 = Image::new_rgba(&mut ctx, 2, 2, &rgba).unwrap();
    let l = Label::new(&mut ctx, "pic").unwrap();
    let l = l.set_image(&mut ctx, img1).unwrap();
    assert_eq!(l.get_image(&ctx), Ok(Some(img1)));
    assert!(img1.to_base().is_alive(&ctx));
    // Replacing the image frees the old buffer: the slot owns it.
    let l = l.set_image(&mut ctx, img2).unwrap();
    assert_eq!(l.get_image(&ctx), Ok(Some(img2)));
    assert!(!img1.to_base().is_alive(&ctx));
    assert!(img2.to_base().is_alive(&ctx));
    ctx.close();
}

#[test]
fn image_destroy_frees_the_buffer() {
    let mut ctx = KISSContext::new();
    ctx.open().unwrap();
    let pixels = vec![(9u8, 9u8, 9u8); 1];
    let img = Image::new_rgb(&mut ctx, 1, 1, &pixels).unwrap();
    assert!(img.to_base().is_alive(&ctx));
    img.destroy(&mut ctx).unwrap();
    assert!(!img.to_base().is_alive(&ctx));
    ctx.close();
}

#[test]
fn alert_popup_reports_scripted_answers() {
    let mut ctx = KISSContext::new();
    let builder = AlertPopupBuilder::new("Ask", "Continue?", "Yes")
        .button2("No")
        .button3("Maybe");
    assert_eq!(builder.title, "Ask");
    assert_eq!(builder.button2.as_deref(), Some("No"));
    assert_eq!(builder.button3.as_deref(), Some("Maybe"));
    assert_eq!(builder.popup(&mut ctx), Err(KissError::NotRunning));

    ctx.open().unwrap();
    ctx.script_popup_answer(2);
    let builder = AlertPopupBuilder::new("Ask", "Continue?", "Yes").button2("No");
    assert_eq!(builder.popup(&mut ctx), Ok(2));
    // With no scripted answer left, the popup counts as closed.
    let builder = AlertPopupBuilder::new("Ask", "Again?", "Yes");
    assert_eq!(builder.popup(&mut ctx), Ok(0));
    let nul = AlertPopupBuilder::new("Ask", "bad\0message", "Yes");
    assert_eq!(nul.popup(&mut ctx), Err(KissError::InteriorNul));
    ctx.close();
}

#[test]
fn message_popup_checks_context_and_strings() {
    let mut ctx = KISSContext::new();
    assert_eq!(message_popup(&ctx, "Hi", "There"), Err(KissError::NotRunning));
    ctx.open().unwrap();
    assert_eq!(message_popup(&ctx, "Hi", "There"), Ok(()));
    assert_eq!(message_popup(&ctx, "Hi\0", "There"), Err(KissError::InteriorNul));
    ctx.close();
}

#[test]
fn move_cell_moves_values() {
    let cell: MoveCell<u32> = MoveCell::new();
    assert!(!cell.has_value());
    let mut cell = MoveCell::with(5u32);
    assert!(cell.has_value());
    assert_eq!(cell.clone_inner(), Some(5));
    assert_eq!(cell.put(7), Some(5));
    assert_eq!(cell.take(), Some(7));
    assert_eq!(cell.take(), None);
    let cell2: MoveCell<&str> = MoveCell::from(Some("v"));
    assert_eq!(cell2.clone_inner(), Some("v"));
}

#[test]
fn stored_widget_downcasts_after_load() {
    // A callback scope can reach a widget created elsewhere by name, and
    // recover its concrete type.
    let mut ctx = KISSContext::new();
    ctx.open().unwrap();
    let t = TextBox::new(&mut ctx).unwrap();
    t.store(&mut ctx, "input").unwrap();
    let g = BaseWidget::load(&ctx, "input").unwrap().unwrap();
    let back: Result<TextBox, BaseWidget> = g.try_downcast(&ctx);
    assert_eq!(back, Ok(t));
    let wrong: Result<Button, BaseWidget> = g.try_downcast(&ctx);
    assert_eq!(wrong, Err(g));
    ctx.close();
}
