use pagbar::bar::{Color, Orientation, Position};
use pagbar::config::{resolve_options, Config, ConfigBar, ConfigColors};

fn bar_entry(monitor: usize, position: Position, size: u16) -> ConfigBar {
    ConfigBar { monitor, position, size }
}

#[test]
fn missing_values_fall_back_to_defaults() {
    let config = Config {
        title: None,
        colors: ConfigColors { background: None, text: None, text_secondary: None },
        bar: vec![bar_entry(0, Position::Bottom, 50)],
    };
    let options = resolve_options(&config);
    assert_eq!(options.len(), 1);
    assert_eq!(options[0].title, "pagbar");
    assert_eq!(options[0].background, Color { r: 0, g: 0, b: 0 });
    assert_eq!(options[0].text, Color { r: 255, g: 255, b: 255 });
    assert_eq!(options[0].text_secondary, Color { r: 150, g: 150, b: 150 });
}

#[test]
fn configured_values_are_copied_into_every_bar() {
    let config = Config {
        title: Some(String::from("statusbar")),
        colors: ConfigColors {
            background: Some(Color { r: 1, g: 2, b: 3 }),
            text: Some(Color { r: 4, g: 5, b: 6 }),
            text_secondary: None,
        },
        bar: vec![bar_entry(0, Position::Top, 20), bar_entry(1, Position::Right, 40)],
    };
    let options = resolve_options(&config);
    assert_eq!(options.len(), 2);
    for (i, option) in options.iter().enumerate() {
        assert_eq!(option.title, "statusbar");
        assert_eq!(option.background, Color { r: 1, g: 2, b: 3 });
        assert_eq!(option.text, Color { r: 4, g: 5, b: 6 });
        assert_eq!(option.text_secondary, Color { r: 150, g: 150, b: 150 });
        assert_eq!(option.monitor, config.bar[i].monitor);
        assert_eq!(option.size, config.bar[i].size);
    }
    assert_eq!(options[0].position, Position::Top);
    assert_eq!(options[1].position, Position::Right);
}

#[test]
fn side_edges_are_vertical_and_top_bottom_horizontal() {
    assert_eq!(Position::Left.orientation(), Orientation::Vertical);
    assert_eq!(Position::Right.orientation(), Orientation::Vertical);
    assert_eq!(Position::Top.orientation(), Orientation::Horizontal);
    assert_eq!(Position::Bottom.orientation(), Orientation::Horizontal);
}
