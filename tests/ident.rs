use stk_pic_vm::color::Color;
use stk_pic_vm::geometry::{Pos, Rect, Size};
use stk_pic_vm::ident::MinifiedIdent;
use stk_pic_vm::probe::{LcdProbe, LcdWrite};

#[test]
fn minified_ident() {
    let mut idents = MinifiedIdent::new();
    let mut taken = Vec::new();
    for _ in 0..60 {
        taken.push(idents.next().unwrap());
    }
    assert_eq!(
        taken.join(" "),
        "a b c d e f g h i j k l m n o p q r s t u v w x y z A B C D E F G H I J K L M N O P Q R S T U V W X Y Z ba bb bc bd be bf bg bh",
    );
}

#[test]
fn minified_ident_three_letters() {
    let mut idents = MinifiedIdent::new();
    let mut last = String::new();
    for _ in 0..(52 * 52 + 1) {
        last = idents.next().unwrap();
    }
    assert_eq!(last, "baa");
}

#[test]
fn color_code_is_lower_hex_rgba() {
    assert_eq!(Color::rgb(0, 255, 0).color_code(), "#00ff00ff");
    let c = Color { r: 0x12, g: 0xAB, b: 0x0F, a: 0x80 };
    assert_eq!(c.color_code(), "#12ab0f80");
}

#[test]
fn color_from_tuple_is_opaque() {
    assert_eq!(Color::from((1, 2, 3)), Color { r: 1, g: 2, b: 3, a: 255 });
}

#[test]
fn rect_from_two_corners() {
    let r = Rect::two_pos(Pos::from((10, 10)), Pos::from((100, 45)));
    assert_eq!(r.size, Size { w: 90, h: 35 });
    assert_eq!(r.as_two_pos(), (Pos { x: 10, y: 10 }, Pos { x: 100, y: 45 }));
}

#[test]
fn lcd_probe_reports_falling_enable_edges() {
    let mut probe = LcdProbe::new();
    assert_eq!(probe.observe(0x00, 0x0F), None);
    assert_eq!(probe.observe(0x08, 0x0A), None);
    assert_eq!(probe.observe(0x08, 0x0A), None);
    assert_eq!(probe.observe(0x10, 0x0A), Some(LcdWrite { rs: true, db: 0xA0 }));
    assert_eq!(probe.observe(0x00, 0x0A), None);
    assert_eq!(probe.observe(0x18, 0x03), None);
    assert_eq!(probe.observe(0x00, 0x03), Some(LcdWrite { rs: false, db: 0x30 }));
}
