//! Logger, scene-arena and interpolation-state behaviour, plus spot checks
//! of the interpolation formulas on concrete values.

use tepi::error::EngineError;
use tepi::interp::InterpState;
use tepi::linear::Pos2D;
use tepi::logger::{TEPILogMsg, TEPILogType, TEPILogger};
use tepi::scene::{Scene, SceneNode};

#[test]
fn logger_buffer_order() {
    let mut l = TEPILogger::new("engine".to_string(), "engine.log".to_string(), None, false);
    assert!(l.pop().is_none());
    l.log_normal("first".to_string(), None, "10:00:00".to_string());
    l.log_warn("second".to_string(), Some(vec!["net".to_string()]), "10:00:01".to_string());
    l.log_error("third".to_string(), None, "10:00:02".to_string());

    let m = l.pop().unwrap();
    assert_eq!(m.message, "first");
    assert_eq!(m.timestamp, "10:00:00");
    assert!(matches!(m.log_type, TEPILogType::NORMAL));

    let m = l.pop().unwrap();
    assert_eq!(m.message, "second");
    assert_eq!(m.filters, vec!["net".to_string()]);
    assert!(matches!(m.log_type, TEPILogType::WARN));

    let m = l.pop().unwrap();
    assert!(matches!(m.log_type, TEPILogType::ERROR));
    assert!(l.pop().is_none());
}

#[test]
fn logger_custom_flag() {
    let mut l = TEPILogger::new("engine".to_string(), "engine.log".to_string(), Some(4), true);
    l.log_custom(
        "traced".to_string(),
        None,
        "TRACE".to_string(),
        "10:00:03".to_string(),
    );
    let m = l.pop().unwrap();
    assert!(matches!(m.log_type, TEPILogType::CUSTOM));
    assert_eq!(m.log_type_custom, Some("TRACE".to_string()));
    assert_eq!(
        TEPILogger::log_type_str(m.log_type, m.log_type_custom.clone()),
        "TRACE"
    );
    assert_eq!(TEPILogger::log_type_str(TEPILogType::NORMAL, None), "NORMAL");
    assert_eq!(TEPILogger::log_type_str(TEPILogType::WARN, None), "WARN");
    assert_eq!(TEPILogger::log_type_str(TEPILogType::ERROR, None), "ERROR");
}

#[test]
fn log_line_format() {
    let msg = TEPILogMsg {
        timestamp: "12:34:56".to_string(),
        log_type: TEPILogType::WARN,
        filters: vec!["net".to_string(), "io".to_string()],
        message: "boom".to_string(),
        log_type_custom: None,
    };
    assert_eq!(msg.fmt_log_filters(), "[net][io]");
    assert_eq!(msg.fmt_log_string(), "\n[12:34:56][WARN][net][io]: boom");

    let bare = TEPILogMsg {
        timestamp: "00:00:00".to_string(),
        log_type: TEPILogType::NORMAL,
        filters: vec![],
        message: "hi".to_string(),
        log_type_custom: None,
    };
    assert_eq!(bare.fmt_log_filters(), "[]");
    assert_eq!(bare.fmt_log_string(), "\n[00:00:00][NORMAL][]: hi");
}

#[test]
fn read_msg_round_trip() {
    let parsed = TEPILogMsg::read_msg("[12:34:56][WARN][net][io]: boom".to_string()).unwrap();
    assert_eq!(parsed.timestamp, "12:34:56");
    assert!(matches!(parsed.log_type, TEPILogType::WARN));
    // the filters come back in reverse order of appearance
    assert_eq!(parsed.filters, vec!["io".to_string(), "net".to_string()]);
    assert_eq!(parsed.message, ": boom");
    assert_eq!(parsed.log_type_custom, None);

    let custom = TEPILogMsg::read_msg("[00:00:01][TRACE]: x".to_string()).unwrap();
    assert!(matches!(custom.log_type, TEPILogType::CUSTOM));
    assert_eq!(custom.log_type_custom, Some("TRACE".to_string()));
    assert_eq!(custom.timestamp, "00:00:01");

    // a line without the two leading words is refused
    assert!(matches!(
        TEPILogMsg::read_msg("no brackets here".to_string()),
        Err(EngineError::DegenerateInput)
    ));
    assert!(matches!(
        TEPILogMsg::read_msg("[only-one]".to_string()),
        Err(EngineError::DegenerateInput)
    ));
}

#[test]
fn match_log_type_names() {
    assert!(matches!(
        TEPILogMsg::match_log_type("NORMAL".to_string()),
        TEPILogType::NORMAL
    ));
    assert!(matches!(
        TEPILogMsg::match_log_type("WARN".to_string()),
        TEPILogType::WARN
    ));
    assert!(matches!(
        TEPILogMsg::match_log_type("ERROR".to_string()),
        TEPILogType::ERROR
    ));
    assert!(matches!(
        TEPILogMsg::match_log_type("whatever".to_string()),
        TEPILogType::CUSTOM
    ));
}

#[test]
fn scene_ripple_translate() {
    let mut s = Scene::new();
    assert_eq!(s.len(), 0);
    let root = s.add_node(Pos2D::new(0, 0), None, true).unwrap();
    let child = s.add_node(Pos2D::new(10, 0), Some(root), true).unwrap();
    let locked = s.add_node(Pos2D::new(20, 0), Some(child), false).unwrap();
    let below_locked = s.add_node(Pos2D::new(30, 0), Some(locked), true).unwrap();
    let lone = s.add_node(Pos2D::new(40, 0), None, true).unwrap();
    assert_eq!(s.len(), 5);

    // a parent handle that names no node is refused
    assert_eq!(
        s.add_node(Pos2D::new(0, 0), Some(99), true),
        Err(EngineError::DegenerateInput)
    );

    s.ripple_translate(root, 5, 5).unwrap();
    // the root and its dynamic child move
    assert_eq!(s.node(root).unwrap().pos, Pos2D::new(5, 5));
    assert_eq!(s.node(child).unwrap().pos, Pos2D::new(15, 5));
    // a locked node blocks itself and everything under it
    assert_eq!(s.node(locked).unwrap().pos, Pos2D::new(20, 0));
    assert_eq!(s.node(below_locked).unwrap().pos, Pos2D::new(30, 0));
    // an unrelated root is untouched
    assert_eq!(s.node(lone).unwrap().pos, Pos2D::new(40, 0));

    // single-node move
    s.translate_node(lone, -1, -1).unwrap();
    assert_eq!(s.node(lone).unwrap().pos, Pos2D::new(39, -1));

    // bad handles are refused
    assert_eq!(s.ripple_translate(99, 1, 1), Err(EngineError::DegenerateInput));
    assert_eq!(s.translate_node(99, 1, 1), Err(EngineError::DegenerateInput));
    assert!(s.node(99).is_err());

    // node lookups see parents and flags
    let n: SceneNode = s.node(locked).unwrap();
    assert_eq!(n.parent, Some(child));
    assert!(!n.dynamic);
}

#[test]
fn interpolation_state_machine() {
    let mut st = InterpState::begin(Pos2D::new(0, 0), Pos2D::new(10, 10), 5);
    assert_eq!(st.tick(), Some(Pos2D::new(2, 2)));
    assert_eq!(st.tick(), Some(Pos2D::new(4, 4)));
    assert_eq!(st.tick(), Some(Pos2D::new(6, 6)));
    assert_eq!(st.tick(), Some(Pos2D::new(8, 8)));
    // the completing tick lands exactly on the end point and goes idle
    assert_eq!(st.tick(), Some(Pos2D::new(10, 10)));
    assert!(matches!(st, InterpState::Idle));
    assert_eq!(st.tick(), None);
}

#[test]
fn lerp_rounds_toward_zero() {
    // 10 * 1 / 3 truncates to 3, and the negative direction mirrors it
    let a = Pos2D::new(0, 0);
    let b = Pos2D::new(10, -10);
    assert_eq!(Pos2D::lerp(a, b, 1, 3), Pos2D::new(3, -3));
    assert_eq!(Pos2D::lerp(a, b, 2, 3), Pos2D::new(6, -6));
    assert_eq!(Pos2D::lerp(a, b, 0, 3), a);
    assert_eq!(Pos2D::lerp(a, b, 3, 3), b);
    // an unclamped fraction extrapolates past the end point
    assert_eq!(Pos2D::lerp(a, b, 6, 3), Pos2D::new(20, -20));
    assert_eq!(Pos2D::lerp(a, b, -3, 3), Pos2D::new(-10, 10));

    let steps = Pos2D::lerp_steps(a, Pos2D::new(10, 10), 3);
    assert_eq!(steps.len(), 4);
    assert_eq!(steps[0], a);
    assert_eq!(steps[1], Pos2D::new(3, 3));
    assert_eq!(steps[2], Pos2D::new(6, 6));
    assert_eq!(steps[3], Pos2D::new(10, 10));
}

#[test]
fn min_max_commute() {
    let a = Pos2D::new(3, -7);
    let b = Pos2D::new(-2, 9);
    assert_eq!(a.min(b), b.min(a));
    assert_eq!(a.max(b), b.max(a));
    let lo = a.min(b);
    let hi = a.max(b);
    assert!(lo.x() <= hi.x() && lo.y() <= hi.y());
    assert_eq!(lo, Pos2D::new(-2, -7));
    assert_eq!(hi, Pos2D::new(3, 9));
}

#[test]
fn translate_round_trip() {
    let mut p = Pos2D::new(17, -42);
    let original = p;
    p.translate(100, 50);
    assert_eq!(p, Pos2D::new(117, 8));
    p.translate(-100, -50);
    assert_eq!(p, original);
    p.translate_x(20);
    p.translate_x(-20);
    p.translate_y(-9);
    p.translate_y(9);
    assert_eq!(p, original);
}
