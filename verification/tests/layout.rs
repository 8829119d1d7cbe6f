use ratatui::layout::{Constraint, Direction, Layout, Rect};
use torfile::app::App;
use torfile::render::render;
use torfile::screen::Area;

struct Numbers(u64);

impl Numbers {
    fn next(&mut self, below: u64) -> u16 {
        self.0 ^= self.0 << 13;
        self.0 ^= self.0 >> 7;
        self.0 ^= self.0 << 17;
        ((self.0 >> 11) % below) as u16
    }
}

fn any_constraint(n: &mut Numbers) -> Constraint {
    match n.next(3) {
        0 => Constraint::Length(n.next(60)),
        1 => Constraint::Min(n.next(30)),
        _ => Constraint::Percentage(n.next(130)),
    }
}

fn no_part_exceeds_its_length(seed: u64, rounds: u32) {
    let mut n = Numbers(seed);
    for _ in 0..rounds {
        let list: Vec<Constraint> = (0..1 + n.next(3)).map(|_| any_constraint(&mut n)).collect();
        let area = Rect::new(0, n.next(50), 10, n.next(120));
        let parts = Layout::new(Direction::Vertical, list.clone()).split(area);
        assert_eq!(parts.len(), list.len());
        for (part, c) in parts.iter().zip(&list) {
            assert!(part.y >= area.y && part.bottom() <= area.bottom(), "{:?} {:?}", list, area);
            if let Constraint::Length(l) = c {
                assert!(part.height <= *l, "{:?} {:?} {:?}", list, area, parts);
            }
        }
    }
}

#[test]
fn parts_keep_their_lengths() {
    no_part_exceeds_its_length(88_172_645_463_325_252, 3_000);
}

#[test]
fn lists_that_fit_are_met() {
    let mut n = Numbers(362_436_069_521_288_629);
    for _ in 0..2_000 {
        let count = 1 + n.next(3);
        let at = n.next(count as u64);
        let sizes: Vec<u16> = (0..count).map(|_| n.next(40)).collect();
        let list: Vec<Constraint> = (0..count)
            .map(|i| if i == at { Constraint::Min(sizes[i as usize]) } else { Constraint::Length(sizes[i as usize]) })
            .collect();
        let asked: u16 = sizes.iter().sum();
        let left = n.next(60);
        let area = Rect::new(n.next(9), n.next(50), 7, asked + left);
        let parts = Layout::new(Direction::Vertical, list.clone()).split(area);
        let mut y = area.y;
        for (i, part) in parts.iter().enumerate() {
            let height = sizes[i] + if i as u16 == at { left } else { 0 };
            assert_eq!(*part, Rect::new(area.x, y, 7, height), "{:?} {:?}", list, area);
            y += height;
        }
    }
}

#[test]
fn a_screen_without_rows() {
    let shown = render(&App::new(String::new()), Area { x: 0, y: 0, width: 10, height: 0 });
    assert!(shown.iter().all(|p| p.area.height == 0));
}
