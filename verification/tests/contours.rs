use barcore::contour::{all_segments, assemble, Contour, Joint, Link};
use barcore::curve::{Line, Segment, Vec2};

fn seg(n: u32) -> Segment {
    Segment::LINE(Line(Vec2 { x: n, y: 0 }, Vec2 { x: n + 1, y: 0 }))
}

fn link(joint: Joint, n: u32) -> Link {
    Link { joint, segment: seg(n) }
}

fn shape_of(contours: &Vec<Contour>) -> Vec<Vec<usize>> {
    contours.iter().map(|c| c.edges.iter().map(|e| e.segments.len()).collect()).collect()
}

fn flat(contours: &Vec<Contour>) -> Vec<Segment> {
    let mut out = Vec::new();
    for c in contours.iter() {
        for e in c.edges.iter() {
            for s in e.segments.iter() {
                out.push(*s);
            }
        }
    }
    out
}

#[test]
fn empty_stream_has_no_contour() {
    assert!(assemble(&Vec::new()).is_empty());
}

#[test]
fn single_segment_is_its_own_edge_and_contour() {
    for joint in [Joint::Apart, Joint::Corner, Joint::Smooth] {
        let contours = assemble(&vec![link(joint, 4)]);
        assert_eq!(shape_of(&contours), vec![vec![1]]);
        assert_eq!(contours[0].edges[0].segments[0], seg(4));
    }
}

#[test]
fn contours_break_at_gaps_and_edges_at_corners() {
    let links = vec![
        link(Joint::Smooth, 0),
        link(Joint::Smooth, 1),
        link(Joint::Corner, 2),
        link(Joint::Smooth, 3),
        link(Joint::Smooth, 4),
        link(Joint::Apart, 5),
        link(Joint::Corner, 6),
        link(Joint::Corner, 7),
        link(Joint::Apart, 8),
    ];
    let contours = assemble(&links);
    assert_eq!(shape_of(&contours), vec![vec![2, 3], vec![1, 1, 1], vec![1]]);
    assert_eq!(contours[1].edges[2].segments[0], seg(7));
}

#[test]
fn assembly_reproduces_the_stream() {
    let joints = [Joint::Apart, Joint::Corner, Joint::Smooth];
    let mut links = Vec::new();
    for n in 0..40u32 {
        links.push(link(joints[((n * 7 + n / 3) % 3) as usize], n));
    }
    let contours = assemble(&links);
    let want: Vec<Segment> = links.iter().map(|l| l.segment).collect();
    assert_eq!(flat(&contours), want);
    for c in contours.iter() {
        assert!(!c.edges.is_empty());
        for e in c.edges.iter() {
            assert!(!e.segments.is_empty());
        }
    }
    let gaps = links.iter().skip(1).filter(|l| l.joint == Joint::Apart).count();
    assert_eq!(contours.len(), gaps + 1);
}

#[test]
fn curves_are_read_back_edge_after_edge() {
    let links = vec![
        link(Joint::Smooth, 0),
        link(Joint::Corner, 1),
        link(Joint::Smooth, 2),
        link(Joint::Apart, 3),
    ];
    let contours = assemble(&links);
    assert_eq!(contours[0].segments(), vec![seg(0), seg(1), seg(2)]);
    assert_eq!(contours[1].segments(), vec![seg(3)]);
    assert_eq!(all_segments(&contours), vec![seg(0), seg(1), seg(2), seg(3)]);
    assert_eq!(all_segments(&contours), flat(&contours));
    assert!(all_segments(&Vec::new()).is_empty());
    assert!(Contour { edges: vec![] }.segments().is_empty());
}
