use std::rc::Rc;

use ast_core::ast::Ast;
use ast_core::pattern::{
    Either, MacroMatchSegment, MacroPatternMatchRaw, MacroPatternRaw, Shifted, ShiftedVec1, Tree,
    Unit,
};
use ast_core::shape::{
    Blank, Block, BlockLine, BlockType, Comment, Cons, DanglingBase, Def, Infix, InvalidSuffix,
    Match, Mod, Module, Number, Prefix, SectionLeft, SectionRight, SectionSides, Shape,
    ShapeVariant, Var,
};
use ast_core::span::HasSpan;
use ast_core::text::{
    Builder, Escape, RawEscape, SegmentEscape, SegmentExpr, SegmentFmt, SegmentPlain,
    SegmentRaw, SegmentRawEscape, TextBlockLine, TextBlockRaw, TextLine, TextLineFmt, TextLineRaw,
    TextUnclosed,
};
use ast_core::wire::{decode, AstFields};

fn var(name: &str) -> Ast {
    Ast::var(name.to_string())
}

fn name_of(ast: &Ast) -> String {
    match ast.shape() {
        Shape::Var(v) => v.name.clone(),
        Shape::Cons(c) => c.name.clone(),
        _ => String::new(),
    }
}

#[test]
fn var_smart_constructor() {
    let name = "foo".to_string();
    let v = Ast::var(name.clone());
    match v.shape() {
        Shape::Var(var) if var.name == name => (),
        _ => panic!("expected Var with name `{}`", name),
    }
}

#[test]
fn ast_wrapping() {
    let sample_name = "foo".to_string();
    let v = Var { name: sample_name.clone() };
    let ast = Ast::from_variant(v);
    assert_eq!(ast.id(), None);
    assert_eq!(ast.span(), sample_name.span());
}

#[test]
fn serialization_round_trip() {
    let make_var = || Var { name: "foo".into() };
    for id in [None, Some(0x15u128)] {
        let ast = Ast::new(make_var().widen(), id);
        let fields = ast.wire_fields();
        let again = decode(AstFields {
            shape: Some(Var::narrow(make_var().widen()).ok().unwrap().widen()),
            id: fields.id,
            span: Some(fields.span),
        })
        .ok()
        .unwrap();
        assert_eq!(again.id(), id);
        assert_eq!(again.span(), ast.span());
        assert_eq!(name_of(&again), "foo");
        assert!(matches!(fields.shape, Shape::Var(v) if v.name == "foo"));
    }
}

#[test]
fn deserialize_var() {
    let var_name = "foo";
    let expected_uuid = 0x51e74fb9_75a4_499d_9ea3_a90a2663b4a1u128;
    let fields = AstFields {
        shape: Some(Shape::Var(Var { name: var_name.into() })),
        id: Some(expected_uuid),
        span: Some(var_name.len()),
    };
    let ast = decode(fields).ok().unwrap();
    assert_eq!(ast.id(), Some(expected_uuid));
    assert_eq!(ast.span(), 3);
    assert_eq!(name_of(&ast), "foo");
}

#[test]
fn absent_id_stays_absent_on_the_wire() {
    let ast = var("x");
    assert_eq!(ast.wire_fields().id, None);
    let with_id = Ast::new(Shape::Var(Var { name: "x".into() }), Some(7));
    assert_eq!(with_id.wire_fields().id, Some(7));
}

#[test]
fn decode_without_shape_or_span_fails() {
    let missing_both = AstFields { shape: None, id: Some(1), span: None };
    let err = decode(missing_both).err().unwrap();
    assert_eq!(err.field, "shape");

    let missing_span = AstFields { shape: Some(Shape::Blank(Blank {})), id: None, span: None };
    assert_eq!(decode(missing_span).err().unwrap().field, "span");

    let missing_shape = AstFields { shape: None, id: None, span: Some(1) };
    assert_eq!(decode(missing_shape).err().unwrap().field, "shape");
}

#[test]
fn identifier_and_number_spans() {
    assert_eq!(Shape::Var(Var { name: "foo".into() }).span(), 3);
    let hex = Number { base: Some("16".into()), int: "ff".into() };
    assert_eq!(Shape::Number(hex).span(), 5);
    let plain = Number { base: None, int: "123".into() };
    assert_eq!(Shape::Number(plain).span(), 3);
    assert_eq!(Shape::Blank(Blank {}).span(), 1);
    assert_eq!(Shape::Cons(Cons { name: "Ä".into() }).span(), 1);
    assert_eq!(Shape::Mod(Mod { name: "Foo".into() }).span(), 3);
    assert_eq!(Shape::DanglingBase(DanglingBase { base: "16".into() }).span(), 3);
    let suffix = InvalidSuffix { elem: var("ab"), suffix: "x!".into() };
    assert_eq!(Shape::InvalidSuffix(suffix).span(), 4);
}

#[test]
fn text_line_spans() {
    assert_eq!(Shape::TextLineRaw(TextLineRaw { text: vec![] }).span(), 2);
    let raw = TextLineRaw {
        text: vec![
            SegmentRaw::SegmentPlain(SegmentPlain { value: "ab".into() }),
            SegmentRaw::SegmentRawEscape(SegmentRawEscape { code: RawEscape::Slash {} }),
            SegmentRaw::SegmentRawEscape(SegmentRawEscape { code: RawEscape::Unfinished {} }),
        ],
    };
    assert_eq!(raw.span(), 2 + 2 + 2 + 1);
    let fmt = TextLineFmt {
        text: vec![
            SegmentFmt::SegmentExpr(SegmentExpr { value: Some(var("abc")) }),
            SegmentFmt::SegmentExpr(SegmentExpr { value: None }),
            SegmentFmt::SegmentEscape(SegmentEscape {
                code: Escape::Unicode21 { digits: "1F600".into() },
            }),
            SegmentFmt::SegmentEscape(SegmentEscape { code: Escape::Unicode16 { digits: "00e9".into() } }),
            SegmentFmt::SegmentEscape(SegmentEscape {
                code: Escape::Control { name: "NUL".into(), code: 0 },
            }),
        ],
    };
    assert_eq!(fmt.span(), 2 + 5 + 2 + 9 + 6 + 4);
    let unclosed = TextUnclosed { line: TextLine::TextLineRaw(TextLineRaw { text: vec![] }) };
    assert_eq!(Shape::TextUnclosed(unclosed).span(), 1);
}

#[test]
fn text_block_span() {
    let block = TextBlockRaw {
        text: vec![
            TextBlockLine {
                empty_lines: vec![2, 0],
                text: vec![SegmentRaw::SegmentPlain(SegmentPlain { value: "hi".into() })],
            },
            TextBlockLine { empty_lines: vec![], text: vec![] },
        ],
        spaces: 1,
        offset: 4,
    };
    // quotes, spaces, then (2 + 3 + 4 + 2) and (0 + 1 + 4 + 0)
    assert_eq!(Shape::TextBlockRaw(block).span(), 3 + 1 + 11 + 5);
}

#[test]
fn builder_span() {
    let b = Builder::Concat {
        first: Rc::new(Builder::Letter { char: 'x' }),
        second: Rc::new(Builder::Concat {
            first: Rc::new(Builder::Space { span: 3 }),
            second: Rc::new(Builder::Text { str: "abc".into() }),
        }),
    };
    assert_eq!(b.span(), 7);
    assert_eq!(Builder::Empty.span(), 0);
}

#[test]
fn application_spans() {
    let prefix = Prefix { func: var("f"), off: 1, arg: var("xs") };
    assert_eq!(Shape::Prefix(prefix).span(), 4);
    let infix = Infix { larg: var("a"), loff: 1, opr: var("+"), roff: 2, rarg: var("bc") };
    assert_eq!(Shape::Infix(infix).span(), 7);
    let left = SectionLeft { arg: var("a"), off: 1, opr: var("+") };
    assert_eq!(Shape::SectionLeft(left).span(), 3);
    let right = SectionRight { opr: var("-"), off: 0, arg: var("bc") };
    assert_eq!(Shape::SectionRight(right).span(), 3);
    assert_eq!(Shape::SectionSides(SectionSides { opr: var("*") }).span(), 1);
}

#[test]
fn module_and_block_spans() {
    let module = Module {
        lines: vec![
            BlockLine { elem: Some(var("foo")), off: 1 },
            BlockLine { elem: None, off: 2 },
            BlockLine { elem: Some(var("a")), off: 0 },
        ],
    };
    assert_eq!(Shape::Module(module).span(), 4 + 2 + 1 + 2);
    let empty = Module { lines: vec![] };
    assert!(Shape::Module(empty).try_span().is_err());

    let block = Block {
        ty: BlockType::Continuous {},
        indent: 2,
        empty_lines: vec![3],
        first_line: BlockLine { elem: var("ab"), off: 0 },
        lines: vec![
            BlockLine { elem: None, off: 1 },
            BlockLine { elem: Some(var("c")), off: 0 },
        ],
        is_orphan: false,
    };
    // head, gap, first line, then (1 + 0 + 1) and (1 + 2 + 1)
    assert_eq!(Shape::Block(block).span(), 1 + 4 + 4 + 2 + 4);
}

#[test]
fn spaceless_forms_have_no_span_rule() {
    let comment = Shape::Comment(Comment { lines: vec!["note".into()] });
    assert!(comment.try_span().is_err());
    assert_eq!(Shape::Var(Var { name: "ab".into() }).try_span().ok(), Some(2));
}

#[test]
fn narrowing_to_the_wrong_variant_fails() {
    let shape = Shape::Var(Var { name: "x".into() });
    let err = Cons::narrow(shape).err().unwrap();
    assert_eq!(err.expected_con, "Cons");
    let shape = Shape::Var(Var { name: "x".into() });
    let back = Var::narrow(shape).ok().unwrap();
    assert_eq!(back.name, "x");
}

#[test]
fn default_identity_and_span() {
    let ast = Ast::from_variant(Var { name: "x".into() });
    assert_eq!(ast.id(), None);
    assert_eq!(ast.span(), 1);
}

#[test]
fn traversal_of_leaf_is_itself() {
    let leaf = var("x");
    let nodes = leaf.traverse();
    assert_eq!(nodes.len(), 1);
    assert_eq!(name_of(&nodes[0]), "x");
}

#[test]
fn traversal_is_preorder_left_to_right() {
    let inner = Ast::new(
        Shape::Prefix(Prefix { func: var("f"), off: 1, arg: var("x") }),
        None,
    );
    let root = Ast::new(
        Shape::Infix(Infix { larg: inner, loff: 1, opr: var("+"), roff: 1, rarg: var("y") }),
        Some(9),
    );
    let nodes = root.traverse();
    assert_eq!(nodes.len(), 6);
    assert_eq!(nodes[0].id(), Some(9));
    assert!(matches!(nodes[1].shape(), Shape::Prefix(_)));
    let names: Vec<String> = nodes[2..].iter().map(name_of).collect();
    assert_eq!(names, vec!["f", "x", "+", "y"]);
}

#[test]
fn traversal_visits_def_parts_and_text_expressions() {
    let text = Ast::new(
        Shape::TextLineFmt(TextLineFmt {
            text: vec![
                SegmentFmt::SegmentPlain(SegmentPlain { value: "a".into() }),
                SegmentFmt::SegmentExpr(SegmentExpr { value: Some(var("e")) }),
            ],
        }),
        None,
    );
    let def = Ast::new_with_span(
        Shape::Def(Def { name: var("Main"), args: vec![var("p")], body: Some(text) }),
        None,
        0,
    );
    let nodes = def.traverse();
    assert_eq!(nodes.len(), 5);
    assert_eq!(name_of(&nodes[1]), "Main");
    assert_eq!(name_of(&nodes[2]), "p");
    assert!(matches!(nodes[3].shape(), Shape::TextLineFmt(_)));
    assert_eq!(name_of(&nodes[4]), "e");
}

#[test]
fn ambiguity_tree_keeps_branch_order() {
    let leaf1: Tree<Ast, Unit> = Tree { value: None, branches: vec![] };
    let leaf2: Tree<Ast, Unit> = Tree { value: Some(Unit {}), branches: vec![] };
    assert!(leaf1.is_leaf());
    assert!(!leaf2.is_leaf());
    let tree = Tree { value: None, branches: vec![(var("A"), leaf1), (var("B"), leaf2)] };
    assert!(!tree.is_leaf());
    let keys: Vec<String> = tree.branches.iter().map(|(k, _)| name_of(k)).collect();
    assert_eq!(keys, vec!["A", "B"]);
    assert!(tree.branches[0].1.value.is_none());
    assert!(tree.branches[1].1.value.is_some());
}

#[test]
fn traversal_visits_what_macro_segments_captured() {
    let var_pat = Rc::new(MacroPatternRaw::Var { spaced: None });
    let or_pat = Rc::new(MacroPatternRaw::Or { pat1: var_pat.clone(), pat2: var_pat.clone() });
    let many_pat = Rc::new(MacroPatternRaw::Many { pat: or_pat.clone() });
    let captured = |name: &str| {
        Rc::new(MacroPatternMatchRaw::Or {
            pat: or_pat.clone(),
            elem: Either::Left {
                value: Rc::new(MacroPatternMatchRaw::Var {
                    pat: var_pat.clone(),
                    elem: Shifted { wrapped: var(name), off: 1 },
                }),
            },
        })
    };
    let body = Rc::new(MacroPatternMatchRaw::Many {
        pat: many_pat.clone(),
        elem: vec![captured("a"), captured("b")],
    });
    let tail_body = Rc::new(MacroPatternMatchRaw::Var {
        pat: var_pat.clone(),
        elem: Shifted { wrapped: var("c"), off: 0 },
    });
    let segs = ShiftedVec1 {
        head: MacroMatchSegment { head: var("if"), body },
        tail: vec![Shifted { wrapped: MacroMatchSegment { head: var("then"), body: tail_body }, off: 1 }],
    };
    let node = Ast::new_with_span(
        Shape::Match(Match { pfx: None, segs, resolved: var("r") }),
        None,
        0,
    );
    let names: Vec<String> = node.traverse()[1..].iter().map(name_of).collect();
    assert_eq!(names, vec!["a", "b", "c"]);
    assert!(matches!(&*node_pattern(), MacroPatternRaw::Var { .. }));
}

fn node_pattern() -> Rc<MacroPatternRaw> {
    let pat = Rc::new(MacroPatternRaw::Var { spaced: Some(true) });
    let m = MacroPatternMatchRaw::Var { pat: pat.clone(), elem: Shifted { wrapped: var("v"), off: 0 } };
    m.pattern().clone()
}
