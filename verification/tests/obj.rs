use rc::obj::is_float_text;
use rc::obj::model;
use rc::obj::parse_u32;
use rc::obj::split_words;
use rc::obj::IntErrorKind;
use rc::obj::ObjError;
use rc::obj::ObjPanic;

fn lines(text: &str) -> Vec<String> {
    text.lines().map(|l| l.to_string()).collect()
}

fn chars(s: &str) -> Vec<char> {
    s.chars().collect()
}

#[test]
fn obj_reads_vertices_and_faces() {
    let src = lines("# a triangle\nv 0.0 1.0 -2.5\nv 1 2 3 4\n\nvt 0.5 0.5\nf 1 2/7 3//9 4/5/6\nf\n");
    let m = model::new(&src).unwrap();
    assert_eq!(m.nverts(), 2);
    assert_eq!(m.nfaces(), 2);
    let v0 = m.vert(0);
    assert_eq!((v0.x.as_str(), v0.y.as_str(), v0.z.as_str()), ("0.0", "1.0", "-2.5"));
    let v1 = m.vert(1);
    assert_eq!((v1.x.as_str(), v1.y.as_str(), v1.z.as_str()), ("1", "2", "3"));
    assert_eq!(m.face(0), vec![0, 1, 2, 3]);
    assert_eq!(m.face(1), Vec::<i32>::new());
}

#[test]
fn obj_words_split_on_any_white_space() {
    let src = lines("v\t1\u{3000}2  3\r\n   f   +1   2\u{a0}3   ");
    let m = model::new(&src).unwrap();
    assert_eq!(m.nverts(), 1);
    assert_eq!(m.face(0), vec![0, 1, 2]);
}

#[test]
fn obj_only_exact_keywords_count() {
    let src = lines("vn 1 2 3\nfo 1\nV 1 2 3\nF 1");
    let m = model::new(&src).unwrap();
    assert_eq!(m.nverts(), 0);
    assert_eq!(m.nfaces(), 0);
}

#[test]
fn obj_bad_index_is_refused() {
    assert_eq!(model::new(&lines("f 1 x 3")).err(), Some(ObjError::IndexParse(IntErrorKind::InvalidDigit)));
    assert_eq!(model::new(&lines("f 1 /2 3")).err(), Some(ObjError::IndexParse(IntErrorKind::Empty)));
    assert_eq!(model::new(&lines("f -1")).err(), Some(ObjError::IndexParse(IntErrorKind::InvalidDigit)));
    assert_eq!(
        model::new(&lines("f 4294967296")).err(),
        Some(ObjError::IndexParse(IntErrorKind::PosOverflow))
    );
}

#[test]
fn obj_first_refusal_wins() {
    // the face line comes first, so its error is the one reported
    let r = model::new(&lines("f 1 +\nv 1 2"));
    assert_eq!(r.err(), Some(ObjError::IndexParse(IntErrorKind::InvalidDigit)));
}

#[test]
fn obj_index_wraps_like_i32() {
    let m = model::new(&lines("f 0 2147483647 2147483649 4294967295")).unwrap();
    assert_eq!(m.face(0), vec![-1, 2147483646, -2147483648, -2]);
}

#[test]
fn obj_panicking_inputs_are_told_apart() {
    assert_eq!(model::try_new(&lines("v 1 2")).err(), Some(ObjPanic::MissingCoordinate));
    assert_eq!(model::try_new(&lines("f 1 2147483648")).err(), Some(ObjPanic::IndexOverflow));
    // a refusal that comes earlier stops the reading first
    assert!(matches!(
        model::try_new(&lines("f x\nv 1")),
        Ok(Err(ObjError::IndexParse(IntErrorKind::InvalidDigit)))
    ));
}

#[test]
fn parse_u32_follows_std() {
    for s in ["", "+", "-", "0", "+17", "-17", "007", "4294967295", "4294967296", "99999999999x", "1 2", "١"] {
        let expected = s.parse::<u32>().map_err(|e| format!("{:?}", e.kind()));
        let got = parse_u32(&chars(s)).map_err(|k| format!("{:?}", k));
        assert_eq!(got, expected, "input {:?}", s);
    }
}

#[test]
fn split_words_matches_std() {
    for s in ["", "  ", "a", " a b  c ", "\u{2028}x\u{85}y\u{200b}z"] {
        let expected: Vec<Vec<char>> = s.split_whitespace().map(|w| w.chars().collect()).collect();
        assert_eq!(split_words(&chars(s)), expected, "input {:?}", s);
    }
}

#[test]
fn obj_other_lines_change_nothing() {
    let plain = model::new(&lines("v 1 2 3\nf 1 1 1")).unwrap();
    let noisy = model::new(&lines("# hi\nv 1 2 3\nvn 0 0 1\n\n   \nf 1 1 1\ng group")).unwrap();
    assert_eq!((plain.nverts(), plain.nfaces()), (noisy.nverts(), noisy.nfaces()));
    assert_eq!(plain.face(0), noisy.face(0));
    assert_eq!(plain.vert(0).z, noisy.vert(0).z);
}

#[test]
fn obj_at_most_one_item_per_line() {
    let src = lines("v 1 2 3 v 4 5 6\nf 1 2 3 4\nv 7 8 9");
    let m = model::new(&src).unwrap();
    assert!(m.nverts() + m.nfaces() <= src.len());
    assert_eq!((m.nverts(), m.nfaces()), (2, 1));
}

#[test]
fn obj_bad_coordinate_is_refused() {
    // the coordinates are read in order: a bad one is refused before a later one is missed
    assert_eq!(model::new(&lines("v a")).err(), Some(ObjError::CoordinateParse));
    assert_eq!(model::new(&lines("v 1 a")).err(), Some(ObjError::CoordinateParse));
    assert_eq!(model::new(&lines("v 1 2 3e")).err(), Some(ObjError::CoordinateParse));
    assert_eq!(model::new(&lines("v 1,5 2 3")).err(), Some(ObjError::CoordinateParse));
    assert_eq!(model::try_new(&lines("v 1")).err(), Some(ObjPanic::MissingCoordinate));
    assert_eq!(model::try_new(&lines("v")).err(), Some(ObjPanic::MissingCoordinate));
}

#[test]
fn obj_refusals_come_in_line_order() {
    assert_eq!(model::new(&lines("v 1 2 3\nv q 1 1\nf x")).err(), Some(ObjError::CoordinateParse));
    assert_eq!(
        model::new(&lines("f x\nv q 1 1")).err(),
        Some(ObjError::IndexParse(IntErrorKind::InvalidDigit))
    );
    // a bad coordinate stops the reading before a later line could stop the program
    assert!(matches!(model::try_new(&lines("v q 1 1\nv 1")), Ok(Err(ObjError::CoordinateParse))));
}

#[test]
fn obj_accepts_every_float_syntax() {
    let m = model::new(&lines("v inf -Infinity +NaN\nv 1. -.5 1E+5\nv 2e-3 +0 007")).unwrap();
    assert_eq!(m.nverts(), 3);
    assert_eq!(m.vert(1).y, "-.5");
}

#[test]
fn is_float_text_follows_std() {
    for s in [
        "", "+", "-", ".", "1", "-1", "+1", "1.", ".5", "-.5", "1.5", "1e5", "1E+5", "1e-5", "1e", "1e+",
        "e5", ".e5", "1.e3", "1_0", " 1", "1 ", "inf", "INF", "+inf", "-Infinity", "infinity", "infinit",
        "infinityx", "nan", "NaN", "-nan", "nana", "0x10", "1..2", "1.2.3", "--1", "+-1", "1e5.0", "٣",
        "1e+-5", "00.00e00",
    ] {
        let expected = s.parse::<f32>().is_ok();
        assert_eq!(is_float_text(&chars(s)), expected, "input {:?}", s);
    }
}
