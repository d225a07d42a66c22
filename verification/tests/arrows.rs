use dot::{Arrow, ArrowShape, Fill, Side};

#[test]
fn fill_and_side_tokens() {
    assert_eq!(Fill::Open.as_slice(), "o");
    assert_eq!(Fill::Filled.as_slice(), "");
    assert_eq!(Side::Left.as_slice(), "l");
    assert_eq!(Side::Right.as_slice(), "r");
    assert_eq!(Side::Both.as_slice(), "");
}

#[test]
fn crow_clipped_to_the_left_is_lcrow() {
    assert_eq!(ArrowShape::Crow(Side::Left).to_dot_string(), "lcrow");
}

#[test]
fn normal_arrow_is_normal() {
    assert_eq!(ArrowShape::normal().to_dot_string(), "normal");
    assert!(ArrowShape::normal() == ArrowShape::Normal(Fill::Filled, Side::Both));
}

#[test]
fn whole_tee_is_tee() {
    assert_eq!(ArrowShape::Tee(Side::Both).to_dot_string(), "tee");
    assert_eq!(ArrowShape::tee().to_dot_string(), "tee");
}

#[test]
fn constructors_give_the_filled_whole_shapes() {
    assert!(ArrowShape::none() == ArrowShape::NoArrow);
    assert!(ArrowShape::normal() == ArrowShape::Normal(Fill::Filled, Side::Both));
    assert!(ArrowShape::boxed() == ArrowShape::Box(Fill::Filled, Side::Both));
    assert!(ArrowShape::crow() == ArrowShape::Crow(Side::Both));
    assert!(ArrowShape::curve() == ArrowShape::Curve(Side::Both));
    assert!(ArrowShape::icurve() == ArrowShape::ICurve(Fill::Filled, Side::Both));
    assert!(ArrowShape::diamond() == ArrowShape::Diamond(Fill::Filled, Side::Both));
    assert!(ArrowShape::inv() == ArrowShape::Inv(Fill::Filled, Side::Both));
    assert!(ArrowShape::tee() == ArrowShape::Tee(Side::Both));
    assert!(ArrowShape::vee() == ArrowShape::Vee(Side::Both));
}

#[test]
fn dot_constructor_gives_a_filled_diamond() {
    assert!(ArrowShape::dot() == ArrowShape::Diamond(Fill::Filled, Side::Both));
    assert_eq!(ArrowShape::dot().to_dot_string(), "diamond");
}

#[test]
fn constructors_render_as_the_bare_names() {
    assert_eq!(ArrowShape::none().to_dot_string(), "none");
    assert_eq!(ArrowShape::boxed().to_dot_string(), "box");
    assert_eq!(ArrowShape::crow().to_dot_string(), "crow");
    assert_eq!(ArrowShape::curve().to_dot_string(), "curve");
    assert_eq!(ArrowShape::icurve().to_dot_string(), "icurve");
    assert_eq!(ArrowShape::diamond().to_dot_string(), "diamond");
    assert_eq!(ArrowShape::inv().to_dot_string(), "inv");
    assert_eq!(ArrowShape::vee().to_dot_string(), "vee");
    assert_eq!(ArrowShape::Dot(Fill::Filled).to_dot_string(), "dot");
}

#[test]
fn fill_comes_before_side() {
    assert_eq!(ArrowShape::Normal(Fill::Open, Side::Left).to_dot_string(), "olnormal");
    assert_eq!(ArrowShape::Normal(Fill::Open, Side::Right).to_dot_string(), "ornormal");
    assert_eq!(ArrowShape::Normal(Fill::Open, Side::Both).to_dot_string(), "onormal");
    assert_eq!(ArrowShape::Normal(Fill::Filled, Side::Left).to_dot_string(), "lnormal");
    assert_eq!(ArrowShape::Box(Fill::Open, Side::Right).to_dot_string(), "orbox");
    assert_eq!(ArrowShape::ICurve(Fill::Filled, Side::Right).to_dot_string(), "ricurve");
    assert_eq!(ArrowShape::Diamond(Fill::Open, Side::Left).to_dot_string(), "oldiamond");
    assert_eq!(ArrowShape::Inv(Fill::Open, Side::Both).to_dot_string(), "oinv");
}

#[test]
fn shapes_with_one_modifier() {
    assert_eq!(ArrowShape::Dot(Fill::Open).to_dot_string(), "odot");
    assert_eq!(ArrowShape::Crow(Side::Right).to_dot_string(), "rcrow");
    assert_eq!(ArrowShape::Curve(Side::Left).to_dot_string(), "lcurve");
    assert_eq!(ArrowShape::Tee(Side::Right).to_dot_string(), "rtee");
    assert_eq!(ArrowShape::Vee(Side::Left).to_dot_string(), "lvee");
    assert_eq!(ArrowShape::Vee(Side::Both).to_dot_string(), "vee");
}

#[test]
fn every_shape_is_modifiers_then_name() {
    let fills = [Fill::Open, Fill::Filled];
    let sides = [Side::Left, Side::Right, Side::Both];
    for f in fills {
        for s in sides {
            let m = format!("{}{}", f.as_slice(), s.as_slice());
            assert_eq!(ArrowShape::Normal(f, s).to_dot_string(), format!("{}normal", m));
            assert_eq!(ArrowShape::Box(f, s).to_dot_string(), format!("{}box", m));
            assert_eq!(ArrowShape::ICurve(f, s).to_dot_string(), format!("{}icurve", m));
            assert_eq!(ArrowShape::Diamond(f, s).to_dot_string(), format!("{}diamond", m));
            assert_eq!(ArrowShape::Inv(f, s).to_dot_string(), format!("{}inv", m));
        }
        assert_eq!(ArrowShape::Dot(f).to_dot_string(), format!("{}dot", f.as_slice()));
    }
    for s in sides {
        assert_eq!(ArrowShape::Crow(s).to_dot_string(), format!("{}crow", s.as_slice()));
        assert_eq!(ArrowShape::Curve(s).to_dot_string(), format!("{}curve", s.as_slice()));
        assert_eq!(ArrowShape::Tee(s).to_dot_string(), format!("{}tee", s.as_slice()));
        assert_eq!(ArrowShape::Vee(s).to_dot_string(), format!("{}vee", s.as_slice()));
    }
}

#[test]
fn default_arrow_is_empty() {
    let a = Arrow::default();
    assert!(a.is_default());
    assert!(a.arrows.is_empty());
    assert_eq!(a.to_dot_string(), "");
}

#[test]
fn none_arrow_is_not_the_default_arrow() {
    let a = Arrow::none();
    assert!(!a.is_default());
    assert!(a.arrows == vec![ArrowShape::NoArrow]);
    assert_eq!(a.to_dot_string(), "none");
}

#[test]
fn normal_arrow_holds_one_shape() {
    let a = Arrow::normal();
    assert!(!a.is_default());
    assert!(a.arrows == vec![ArrowShape::Normal(Fill::Filled, Side::Both)]);
    assert_eq!(a.to_dot_string(), "normal");
}

#[test]
fn from_arrow_holds_the_given_shape() {
    let a = Arrow::from_arrow(ArrowShape::Crow(Side::Left));
    assert!(a.arrows == vec![ArrowShape::Crow(Side::Left)]);
    assert_eq!(a.to_dot_string(), "lcrow");
}

#[test]
fn arrow_joins_its_shapes_without_separator() {
    let a = Arrow { arrows: vec![ArrowShape::Dot(Fill::Open), ArrowShape::tee(), ArrowShape::vee()] };
    assert_eq!(a.to_dot_string(), "odotteevee");
}

#[test]
fn arrays_of_shapes_make_arrows() {
    let two: Arrow = [ArrowShape::tee(), ArrowShape::Crow(Side::Left)].into();
    assert!(two.arrows == vec![ArrowShape::tee(), ArrowShape::Crow(Side::Left)]);
    assert_eq!(two.to_dot_string(), "teelcrow");
    let three: Arrow = [ArrowShape::none(), ArrowShape::boxed(), ArrowShape::inv()].into();
    assert!(three.arrows == vec![ArrowShape::none(), ArrowShape::boxed(), ArrowShape::inv()]);
    assert_eq!(three.to_dot_string(), "noneboxinv");
    let four = Arrow::from([
        ArrowShape::Dot(Fill::Open),
        ArrowShape::curve(),
        ArrowShape::icurve(),
        ArrowShape::diamond(),
    ]);
    assert_eq!(four.arrows.len(), 4);
    assert_eq!(four.to_dot_string(), "odotcurveicurvediamond");
}

#[test]
fn arrows_compare_by_their_shapes() {
    assert!(Arrow::default() == Arrow { arrows: vec![] });
    assert!(Arrow::none() != Arrow::default());
    assert!(Arrow::normal().clone() == Arrow::from_arrow(ArrowShape::normal()));
}
