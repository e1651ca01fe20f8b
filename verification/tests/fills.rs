use vexide_embedded_graphics::command::{corners, is_addressable};
use vexide_embedded_graphics::{
    Command, DisplayDriver, Pixel, Point, Rectangle, RenderMode, Rgb888, Size, Strategy,
};

fn driver(strategy: Strategy) -> DisplayDriver {
    DisplayDriver::new(Size::new(480, 240), strategy, RenderMode::Immediate).0
}

fn rect(x: i32, y: i32, width: u32, height: u32) -> Rectangle {
    Rectangle::new(Point::new(x, y), Size::new(width, height))
}

#[test]
fn fill_solid_issues_colour_and_one_fill() {
    let mut d = driver(Strategy::AutoFlush);
    let commands = d.fill_solid(&rect(10, 10, 20, 20), Rgb888::new(0, 255, 0));
    assert_eq!(
        commands,
        vec![
            Command::ForegroundColor(0x0000_FF00),
            Command::RectFill { x1: 10, y1: 42, x2: 29, y2: 61 },
        ]
    );
    assert!(d.buffer().iter().all(|&word| word == 0));
}

#[test]
fn fill_solid_is_the_same_under_every_strategy() {
    let area = rect(0, 0, 480, 240);
    let blue = Rgb888::new(0, 0, 255);
    let expected = vec![
        Command::ForegroundColor(0x0000_00FF),
        Command::RectFill { x1: 0, y1: 32, x2: 479, y2: 271 },
    ];
    assert_eq!(driver(Strategy::AutoFlush).fill_solid(&area, blue), expected);
    assert_eq!(driver(Strategy::ManualFlush).fill_solid(&area, blue), expected);
    assert_eq!(driver(Strategy::Direct).fill_solid(&area, blue), expected);
}

#[test]
fn fill_solid_twice_repeats_itself() {
    let mut d = driver(Strategy::ManualFlush);
    let area = rect(3, 4, 5, 6);
    let color = Rgb888::new(12, 34, 56);
    let first = d.fill_solid(&area, color);
    let state = d.buffer().to_vec();
    let second = d.fill_solid(&area, color);
    assert_eq!(first, second);
    assert_eq!(d.buffer(), &state[..]);
}

#[test]
fn fill_solid_single_pixel_rectangle() {
    let mut d = driver(Strategy::Direct);
    assert_eq!(
        d.fill_solid(&rect(7, 9, 1, 1), Rgb888::new(255, 255, 255)),
        vec![
            Command::ForegroundColor(0x00FF_FFFF),
            Command::RectFill { x1: 7, y1: 41, x2: 7, y2: 41 },
        ]
    );
}

#[test]
fn fill_solid_keeps_rectangles_that_leave_the_display() {
    let mut d = driver(Strategy::Direct);
    assert_eq!(
        d.fill_solid(&rect(-10, -40, 1000, 1000), Rgb888::new(1, 2, 3)),
        vec![
            Command::ForegroundColor(0x0001_0203),
            Command::RectFill { x1: -10, y1: -8, x2: 989, y2: 991 },
        ]
    );
}

#[test]
fn empty_rectangles_are_no_ops() {
    let mut d = driver(Strategy::AutoFlush);
    d.draw_iter(&[Pixel(Point::new(0, 0), Rgb888::new(1, 2, 3))]);
    let before = d.buffer().to_vec();
    let colors = [Rgb888::new(9, 9, 9); 4];
    for area in [rect(5, 5, 0, 10), rect(5, 5, 10, 0), rect(0, 0, 0, 0), rect(i32::MAX, i32::MAX, 0, 7)]
    {
        assert!(d.fill_solid(&area, Rgb888::new(255, 0, 0)).is_empty());
        assert!(d.accepts(&area, colors.len()));
        assert!(d.fill_contiguous(&area, &colors).is_empty());
        assert!(d.fill_contiguous(&area, &[]).is_empty());
        assert_eq!(d.buffer(), &before[..]);
    }
}

#[test]
fn fill_contiguous_reads_back_in_row_major_order() {
    let mut d = driver(Strategy::Direct);
    let colors = [
        Rgb888::new(1, 0, 0),
        Rgb888::new(2, 0, 0),
        Rgb888::new(3, 0, 0),
        Rgb888::new(0, 4, 0),
        Rgb888::new(0, 5, 0),
        Rgb888::new(0, 6, 0),
    ];
    let area = rect(100, 50, 3, 2);
    assert!(d.accepts(&area, colors.len()));
    let commands = d.fill_contiguous(&area, &colors);
    assert_eq!(
        commands,
        vec![Command::CopyRect { x1: 100, y1: 82, x2: 102, y2: 83, stride: 3 }]
    );
    assert_eq!(
        &d.buffer()[..6],
        &[0x01_0000, 0x02_0000, 0x03_0000, 0x00_0400, 0x00_0500, 0x00_0600][..]
    );
    assert!(d.buffer()[6..].iter().all(|&word| word == 0));
}

#[test]
fn fill_contiguous_keeps_the_rest_of_the_buffer() {
    let mut d = driver(Strategy::ManualFlush);
    d.draw_iter(&[
        Pixel(Point::new(0, 0), Rgb888::new(7, 7, 7)),
        Pixel(Point::new(5, 0), Rgb888::new(8, 8, 8)),
    ]);
    let colors = [Rgb888::new(1, 1, 1), Rgb888::new(2, 2, 2)];
    let commands = d.fill_contiguous(&rect(0, 0, 2, 1), &colors);
    assert_eq!(commands, vec![Command::CopyRect { x1: 0, y1: 32, x2: 1, y2: 32, stride: 2 }]);
    assert_eq!(d.buffer()[0], 0x01_0101);
    assert_eq!(d.buffer()[1], 0x02_0202);
    assert_eq!(d.buffer()[5], 0x08_0808);
}

#[test]
fn fill_contiguous_with_fewer_colours_than_pixels() {
    let mut d = driver(Strategy::Direct);
    let area = rect(0, 0, 4, 4);
    let colors = [Rgb888::new(255, 255, 255); 3];
    assert!(d.accepts(&area, colors.len()));
    let commands = d.fill_contiguous(&area, &colors);
    assert_eq!(commands, vec![Command::CopyRect { x1: 0, y1: 32, x2: 3, y2: 35, stride: 4 }]);
    assert_eq!(&d.buffer()[..4], &[0xFF_FFFF, 0xFF_FFFF, 0xFF_FFFF, 0][..]);
}

#[test]
fn fill_contiguous_whole_display() {
    let mut d = driver(Strategy::AutoFlush);
    let colors = vec![Rgb888::new(0, 0, 1); 480 * 240];
    let area = rect(0, 0, 480, 240);
    assert!(d.accepts(&area, colors.len()));
    let commands = d.fill_contiguous(&area, &colors);
    assert_eq!(
        commands,
        vec![Command::CopyRect { x1: 0, y1: 32, x2: 479, y2: 271, stride: 480 }]
    );
    assert!(d.buffer().iter().all(|&word| word == 1));
}

#[test]
fn accepts_refuses_what_the_buffer_cannot_hold() {
    let d = driver(Strategy::Direct);
    assert!(d.accepts(&rect(0, 0, 480, 240), 480 * 240));
    assert!(!d.accepts(&rect(0, 0, 481, 240), 480 * 240));
    assert!(!d.accepts(&rect(0, 0, 480, 240), 480 * 240 + 1));
    assert!(!d.accepts(&rect(0, 0, u32::MAX, u32::MAX), 0));
    assert!(!d.accepts(&rect(i32::MAX, 0, 1, 1), 1));
    assert!(d.accepts(&rect(i32::MAX - 1, 0, 1, 1), 1));
    assert!(d.accepts(&rect(-20, -20, 10, 10), 100));
}

#[test]
fn addressable_rectangles() {
    assert!(is_addressable(&rect(0, 0, 480, 240)));
    assert!(is_addressable(&rect(i32::MIN, i32::MIN, 1, 1)));
    assert!(is_addressable(&rect(i32::MAX, i32::MAX, 0, 0)));
    assert!(is_addressable(&rect(0, 0, i32::MAX as u32, 1)));
    assert!(!is_addressable(&rect(0, 0, i32::MAX as u32 + 1, 1)));
    assert!(!is_addressable(&rect(1, 0, i32::MAX as u32, 1)));
    assert!(is_addressable(&rect(0, i32::MAX - 32, 1, 1)));
    assert!(!is_addressable(&rect(0, i32::MAX - 31, 1, 1)));
    assert!(!is_addressable(&rect(0, 0, 1, i32::MAX as u32)));
    assert!(is_addressable(&rect(0, 0, 1, i32::MAX as u32 - 31)));
}

#[test]
fn corners_move_below_the_status_bar() {
    assert_eq!(corners(&rect(10, 10, 20, 20)), Some((10, 42, 29, 61)));
    assert_eq!(corners(&rect(0, 0, 1, 1)), Some((0, 32, 0, 32)));
    assert_eq!(corners(&rect(-5, -32, 5, 32)), Some((-5, 0, -1, 31)));
    assert_eq!(corners(&rect(0, i32::MAX - 32, 1, 1)), Some((0, i32::MAX, 0, i32::MAX)));
    assert_eq!(corners(&rect(10, 10, 0, 20)), None);
}
