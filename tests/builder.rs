use stilo::{Color, Style};

#[test]
fn builder_works() {
    assert!(matches!(Style::new(), Style { .. }));
    assert!(matches!(Style::new().color(Color::Red), Style { .. }));

    assert_eq!(Style::new().format("hello"), "hello");

    let style = Style::new().color(Color::Red);
    assert_eq!(style.format("hello"), "\x1b[31mhello\x1b[0m");
    assert_eq!(
        style,
        Style {
            color: Some(Color::Red),
            ..Default::default()
        }
    );

    let style = Style::new().italic();
    assert_eq!(style.format("hello"), "\x1b[3mhello\x1b[0m");
    assert_eq!(
        style,
        Style {
            italic: true,
            ..Default::default()
        }
    );

    let style = Style::new().color(Color::Red).color(Color::Blue).italic();
    assert_eq!(style.format("hello"), "\x1b[34;3mhello\x1b[0m");
    assert_eq!(
        style,
        Style {
            color: Some(Color::Blue),
            italic: true,
            ..Default::default()
        }
    );

    let style = Style::new().bold().italic();
    assert_eq!(style.format("hello"), "\x1b[1;3mhello\x1b[0m");
    assert_eq!(
        style,
        Style {
            bold: true,
            italic: true,
            ..Default::default()
        }
    );

    let style = Style::new().bold().italic().color(Color::Green);
    assert_eq!(style.format("hello"), "\x1b[32;1;3mhello\x1b[0m");
    assert_eq!(
        style,
        Style {
            bold: true,
            italic: true,
            color: Some(Color::Green),
            ..Default::default()
        }
    );
}

#[test]
fn style_works() {
    assert_eq!(
        Style::new().color(Color::Red),
        Style {
            color: Some(Color::Red),
            ..Default::default()
        }
    );

    assert_eq!(
        Style::new().color(Color::Red).bold(),
        Style {
            color: Some(Color::Red),
            bold: true,
            ..Default::default()
        }
    );

    assert_eq!(
        Style::new().color(Color::Green).b(),
        Style {
            color: Some(Color::Green),
            bold: true,
            ..Default::default()
        }
    );

    assert_eq!(
        Style::new().color(Color::Blue).italic().b(),
        Style {
            color: Some(Color::Blue),
            italic: true,
            bold: true,
            ..Default::default()
        }
    );

    assert_eq!(
        Style::new().u().d().bold(),
        Style {
            underline: true,
            dim: true,
            bold: true,
            ..Default::default()
        }
    );
}
