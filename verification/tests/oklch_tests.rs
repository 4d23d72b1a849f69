use gpui_component::oklch::{split_oklch, trim_chars, NotOklch};

#[derive(Debug, PartialEq)]
struct Color {
    l: f32,
    c: f32,
    h: f32,
    a: f32,
}

fn number(chars: &[char]) -> Result<f32, ()> {
    chars.iter().collect::<String>().parse::<f32>().map_err(|_| ())
}

/// Reads the numbers of a color whose syntax the library checked.
fn parse(value: &str) -> Result<Color, ()> {
    let pieces = split_oklch(value).map_err(|_| ())?;
    let a = match &pieces.alpha {
        Some(a) => number(a)?,
        None => 1.0,
    };
    let (l, c, h) = pieces.components().ok_or(())?;
    Ok(Color {
        l: number(l)?,
        c: number(c)?,
        h: number(h)?,
        a,
    })
}

fn text(chars: &[char]) -> String {
    chars.iter().collect()
}

#[test]
fn test_oklch_parse_valid() {
    let color = parse("oklch(0.51 0.1 210)").unwrap();
    assert_eq!(color.l, 0.51);
    assert_eq!(color.c, 0.1);
    assert_eq!(color.h, 210.0);
    assert_eq!(color, parse("oklch(0.51, 0.1, 210)").unwrap())
}

#[test]
fn test_oklch_parse_whitespace() {
    let color = parse("  oklch(0.7 0.15 120)  ").unwrap();
    assert_eq!(color.l, 0.7);
    assert_eq!(color.c, 0.15);
    assert_eq!(color.h, 120.0);
}

#[test]
fn test_oklcha_parse_with_alpha() {
    let color = parse("oklch(0.51 0.1 210 / 0.5)").unwrap();
    assert_eq!(color.l, 0.51);
    assert_eq!(color.c, 0.1);
    assert_eq!(color.h, 210.0);
    assert_eq!(color.a, 0.5);
    assert_eq!(color, parse("oklch(0.51, 0.1, 210 / 0.5)").unwrap());
}

#[test]
fn test_oklch_parse_invalid() {
    assert!(parse("hsl(0 0% 0%)").is_err());
    assert!(parse("oklch(0.5 0.1)").is_err());
    assert!(parse("oklch(0.5 0.1 210 0.5)").is_err());
    assert!(parse("oklch()").is_err());
    assert!(parse("random text").is_err());
}

#[test]
fn oklch_pieces_of_the_syntax() {
    assert_eq!(split_oklch("rgb(1 2 3)").err(), Some(NotOklch));
    assert_eq!(split_oklch("oklch(").err(), Some(NotOklch));
    let p = split_oklch("\u{3000} oklch( 1\t2  3 /  4 )\n").unwrap();
    let parts: Vec<String> = p.parts.iter().map(|x| text(x)).collect();
    assert_eq!(parts, vec!["1", "2", "3"]);
    assert_eq!(p.alpha.as_deref().map(text), Some("4".to_string()));
    let p = split_oklch("oklch(1, ,3)").unwrap();
    let parts: Vec<String> = p.parts.iter().map(|x| text(x)).collect();
    assert_eq!(parts, vec!["1", "", "3"]);
    let p = split_oklch("oklch(1 2 / 3 / 4)").unwrap();
    assert_eq!(p.alpha.as_deref().map(text), Some("3 / 4".to_string()));
    assert!(p.components().is_none());
    assert_eq!(text(&trim_chars(&" \t a b \u{a0}".chars().collect())), "a b");
}
