use stilo::{Color, Style};

#[test]
fn stylize_works() {
    let world = "World!";

    assert_eq!(format!("Hello"), "Hello");

    assert_eq!(format!("Hello {}", world), "Hello World!");
    assert_eq!(format!("Hello {world}"), "Hello World!");
    assert_eq!(format!("Hello {0} {1}", world, 123,), "Hello World! 123");

    let red = Style::new().color(Color::Red);
    assert_eq!(red.format("Hello"), "\x1b[31mHello\x1b[0m");
    assert_eq!(red.format(&format!("Hello")), "\x1b[31mHello\x1b[0m");
    assert_eq!(
        red.format(&format!("Hello {}", world)),
        "\x1b[31mHello World!\x1b[0m"
    );

    assert_eq!(
        Style::new().color(Color::Red).bold().format("Hello"),
        "\x1b[31;1mHello\x1b[0m"
    );
    assert_eq!(
        Style::new().color(Color::Green).b().format("Hello"),
        "\x1b[32;1mHello\x1b[0m"
    );

    let blue = Style::new().color(Color::Blue).italic().b();
    assert_eq!(blue.format("Hello"), "\x1b[34;1;3mHello\x1b[0m");
    assert_eq!(
        blue.format(&format!("Hello {}", world)),
        "\x1b[34;1;3mHello World!\x1b[0m"
    );

    let plain_decor = Style::new().u().d().bold();
    assert_eq!(plain_decor.format("Hello"), "\x1b[1;2;4mHello\x1b[0m");
    assert_eq!(
        plain_decor.format(&format!("Hello {}", world)),
        "\x1b[1;2;4mHello World!\x1b[0m"
    );

    // a condition that holds applies the style; one that fails leaves the text alone
    assert_eq!(red.format("Hello"), "\x1b[31mHello\x1b[0m");
    assert_eq!(format!("Hello"), "Hello");

    let red_ib = Style::new().color(Color::Red).italic().bold();
    assert_eq!(red_ib.format("Hello"), "\x1b[31;1;3mHello\x1b[0m");
    assert_eq!(format!("Hello"), "Hello");

    assert_eq!(
        red_ib.format(&format!("Hello {}", world)),
        "\x1b[31;1;3mHello World!\x1b[0m"
    );
    assert_eq!(format!("Hello {}", world), "Hello World!");

    assert_eq!(
        Style::new().i().format(&format!("Hello {}", world)),
        "\x1b[3mHello World!\x1b[0m"
    );
    assert_eq!(format!("Hello {}", world), "Hello World!");

    let style = Style::new().color(Color::Red).italic();

    assert_eq!(style.format("Hello"), "\x1b[31;3mHello\x1b[0m");
    assert_eq!(style.format("Hello"), "\x1b[31;3mHello\x1b[0m");
    assert_eq!(format!("Hello"), "Hello");

    assert_eq!(
        Style::new().color(Color::Blue).format("Hello"),
        "\x1b[34mHello\x1b[0m"
    );
    assert_eq!(
        Style::new().color(Color::Blue).format("Hello"),
        "\x1b[34mHello\x1b[0m"
    );
    assert_eq!(format!("Hello"), "Hello");

    let chosen = if true {
        Style::new().color(Color::Red)
    } else {
        Style::new()
    };
    assert_eq!(chosen.format("Hello"), "\x1b[31mHello\x1b[0m");

    let chosen = if false {
        Style::new().color(Color::Red)
    } else {
        Style::new()
    };
    assert_eq!(chosen.format("Hello"), "Hello");
    assert_eq!(chosen.format("Hello"), "Hello");
}
