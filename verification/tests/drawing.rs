use viewport::components::viewport::ViewportModel;
use viewport::model::Model;

fn viewport_onto(height: usize, text: &str) -> ViewportModel {
    let mut viewport = ViewportModel::new();
    viewport.height = height;
    viewport.set_content(text);
    viewport
}

#[test]
fn a_full_window_is_drawn_line_by_line() {
    let mut viewport = viewport_onto(3, "a\nb\nc\nd\ne");
    assert_eq!(viewport.view(), "a\nb\nc");
    viewport.line_down(1);
    assert_eq!(viewport.view(), "b\nc\nd");
    viewport.go_to_bottom();
    assert_eq!(viewport.view(), "c\nd\ne");
}

#[test]
fn a_window_that_is_not_full_is_padded() {
    let viewport = viewport_onto(5, "a\nb");
    assert_eq!(viewport.view(), "a\nb\n\n\n");
    let viewport = viewport_onto(3, "");
    assert_eq!(viewport.view(), "\n\n");
    let mut viewport = viewport_onto(4, "a\nb\nc\nd\ne");
    viewport.y_offset = 3;
    assert_eq!(viewport.view(), "d\ne\n\n");
    viewport.y_offset = 9;
    assert_eq!(viewport.view(), "\n\n\n");
}

#[test]
fn a_frame_has_as_many_rows_as_the_window() {
    for height in 1..12usize {
        for text in ["", "a", "a\nb\nc", "a\r\nb\r\nc\r\nd\ne\nf\ng\nh\ni\nj\nk\nl\nm"] {
            let mut viewport = viewport_onto(height, text);
            for _ in 0..4 {
                assert_eq!(viewport.view().split('\n').count(), height);
                viewport.high_performance_rendering = true;
                assert_eq!(viewport.view().split('\n').count(), height);
                viewport.high_performance_rendering = false;
                viewport.half_view_down();
            }
        }
    }
}

#[test]
fn high_performance_mode_draws_a_blank_frame() {
    let mut viewport = viewport_onto(4, "a\nb\nc\nd\ne");
    viewport.high_performance_rendering = true;
    assert_eq!(viewport.view(), "\n\n\n");
    viewport.height = 1;
    assert_eq!(viewport.view(), "");
    viewport.height = 0;
    assert_eq!(viewport.view(), "");
    viewport.height = 2;
    viewport.high_performance_rendering = false;
    assert_eq!(viewport.view(), "a\nb");
}

#[test]
fn a_window_of_no_rows_is_drawn_as_nothing() {
    let viewport = viewport_onto(0, "a\nb");
    assert_eq!(viewport.view(), "");
}

#[test]
fn drawing_changes_nothing() {
    let mut viewport = viewport_onto(3, "a\nb\nc\nd\ne");
    viewport.line_down(1);
    let first = viewport.view();
    let second = viewport.view();
    assert_eq!(first, second);
    assert_eq!(viewport.y_offset, 1);
    assert_eq!(viewport.lines.len(), 5);
}

#[test]
fn the_viewport_is_a_model() {
    let mut viewport = viewport_onto(3, "a\nb\nc\nd\ne");
    viewport.width = 20;
    viewport.y_position = 7;
    viewport.line_down(2);
    let drawn = <ViewportModel as Model<char, u8>>::view(&viewport);
    assert_eq!(drawn, "c\nd\ne");
    assert_eq!(drawn, viewport.view());

    let (after, command): (ViewportModel, Option<u8>) = viewport.update('j');
    assert_eq!(command, None);
    assert_eq!(after.width, 20);
    assert_eq!(after.height, 3);
    assert_eq!(after.y_offset, 2);
    assert_eq!(after.y_position, 7);
    assert!(!after.high_performance_rendering);
    assert_eq!(after.lines.len(), 5);
    assert_eq!(after.view(), "c\nd\ne");

    let (after, command): (ViewportModel, Option<String>) = after.update("page down");
    assert_eq!(command, None);
    assert_eq!(after.y_offset, 2);
}

struct Counter {
    count: u32,
}

impl Model<char, u8> for Counter {
    fn view(&self) -> String {
        format!("{}", self.count)
    }

    fn update(self, message: char) -> (Self, Option<u8>) {
        if message == '+' {
            (Counter { count: self.count + 1 }, Some(1))
        } else {
            (self, None)
        }
    }
}

fn send<W: Model<char, u8>>(widget: W, message: char) -> (String, Option<u8>) {
    let (after, command) = widget.update(message);
    (after.view(), command)
}

#[test]
fn a_host_treats_all_widgets_alike() {
    assert_eq!(send(Counter { count: 4 }, '+'), ("5".to_string(), Some(1)));
    assert_eq!(send(Counter { count: 4 }, 'x'), ("4".to_string(), None));
    assert_eq!(send(viewport_onto(2, "a\nb\nc"), '+'), ("a\nb".to_string(), None));
}
