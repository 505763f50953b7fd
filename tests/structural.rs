use design_patterns::adapter::{remove_all, ModernPrinter, ModernPrinterImpl, OldPrinter, PrinterAdapter};
use design_patterns::decorator::{Coffee, MilkDecorator, SimpleCoffee, SugarDecorator};
use design_patterns::facade::{ComputerFacade, HardDrive, Memory, CPU};
use design_patterns::menu::{classify_choice, parse_u32, trim, DesignPatternsMenu, MenuChoice};
use design_patterns::proxy::{Image, ImageProxy, RealImage};
use design_patterns::text::{decimal, money, signed_decimal};

#[test]
fn adapter_strips_legacy_marker() {
    assert_eq!(OldPrinter::new("hi").print_old_format(), "OLD: hi");
    assert_eq!(PrinterAdapter::new("Hello from legacy system!").print(), "Hello from legacy system!");
    assert_eq!(PrinterAdapter::new("keep OLD: twice").print(), "keep twice");
    assert_eq!(ModernPrinterImpl::new("Modern printer").print(), "MODERN: Modern printer");
}

#[test]
fn remove_all_matches_str_replace() {
    for (s, p) in [("aaaa", "aa"), ("abcabc", "bc"), ("", "x"), ("xyz", "xyz"), ("OLD:OLD: ", "OLD: ")] {
        assert_eq!(remove_all(s, p), s.replace(p, ""));
    }
    assert_eq!(remove_all("unchanged", ""), "unchanged");
}

#[test]
fn trim_matches_str_trim() {
    for s in ["17\n", "  17  ", "\t\r\n", "", "a b", "\u{3000}5\u{2029}", "\u{a0}x\u{85}", "\u{200b}y"] {
        assert_eq!(trim(s), s.trim(), "input {:?}", s);
    }
}

#[test]
fn decorator_prices_and_descriptions() {
    let plain = SimpleCoffee;
    assert_eq!(plain.cost(), 200);
    assert_eq!(plain.description(), "Simple coffee");
    let milk = MilkDecorator::new(SimpleCoffee);
    assert_eq!(milk.cost(), 250);
    assert_eq!(milk.description(), "Simple coffee, milk");
    let both = SugarDecorator::new(MilkDecorator::new(SimpleCoffee));
    assert_eq!(both.cost(), 270);
    assert_eq!(both.description(), "Simple coffee, milk, sugar");
}

#[test]
fn facade_start_and_shutdown() {
    let computer = ComputerFacade::new();
    assert_eq!(
        computer.start_computer(),
        vec![
            "Starting computer...",
            "CPU Intel i7 started",
            "Loading 8192MB memory",
            "Reading from 500GB hard drive",
            "CPU executing instructions",
            "Computer ready!\n",
        ]
    );
    assert_eq!(
        computer.shutdown_computer(),
        vec![
            "Shutting down computer...",
            "CPU stopped",
            "Unloading memory",
            "Writing to 500GB hard drive",
            "Computer shut down.\n",
        ]
    );
}

#[test]
fn facade_parts_directly() {
    let cpu = CPU { name: "AMD Ryzen".to_string() };
    assert_eq!(cpu.start(), "CPU AMD Ryzen started");
    assert_eq!(Memory { size: 16384 }.load(), "Loading 16384MB memory");
    assert_eq!(HardDrive { capacity: 1000 }.read(), "Reading from 1000GB hard drive");
}

#[test]
fn proxy_loads_on_display() {
    let proxy = ImageProxy::new("huge_image.jpg");
    assert_eq!(proxy.created(), "Creating image proxy: huge_image.jpg");
    assert_eq!(
        proxy.display(),
        vec![
            "Lazy loading initiated",
            "Loading image: huge_image.jpg",
            "First time access - loading image",
            "Loading huge_image.jpg from disk (expensive operation)",
            "Displaying huge_image.jpg",
        ]
    );
    let direct = RealImage::new("direct.jpg");
    assert_eq!(direct.opened(), "Loading image: direct.jpg");
    assert_eq!(direct.display().len(), 3);
}

#[test]
fn menu_numbers_select_demos() {
    let menu = DesignPatternsMenu::new();
    for n in 1..=15u32 {
        assert_eq!(menu.select(&format!("{}\n", n)), MenuChoice::Demo(n));
    }
    assert_eq!(menu.select("16\n"), MenuChoice::Tips);
    assert_eq!(menu.select("  17  "), MenuChoice::Exit);
    assert_eq!(menu.select("17\r\n"), MenuChoice::Exit);
}

#[test]
fn menu_rejects_other_input() {
    let menu = DesignPatternsMenu::new();
    assert_eq!(menu.select("0"), MenuChoice::OutOfRange);
    assert_eq!(menu.select("18"), MenuChoice::OutOfRange);
    assert_eq!(menu.select("4294967295"), MenuChoice::OutOfRange);
    assert_eq!(menu.select("4294967296"), MenuChoice::NotANumber);
    assert_eq!(menu.select("abc"), MenuChoice::NotANumber);
    assert_eq!(menu.select(""), MenuChoice::NotANumber);
    assert_eq!(menu.select("-3"), MenuChoice::NotANumber);
    assert_eq!(menu.select("+3"), MenuChoice::Demo(3));
    assert_eq!(classify_choice(" 3"), MenuChoice::NotANumber);
}

#[test]
fn parse_u32_agrees_with_std() {
    for s in ["0", "7", "+12", "0042", "4294967295", "4294967296", "", "+", "-1", "1a", "99999999999999999999"] {
        assert_eq!(parse_u32(s), s.parse::<u32>().ok(), "input {:?}", s);
    }
}

#[test]
fn menu_continue_answers() {
    let menu = DesignPatternsMenu::new();
    assert!(menu.wants_another("y\n"));
    assert!(menu.wants_another("  YES "));
    assert!(menu.wants_another("Yes"));
    assert!(!menu.wants_another("n"));
    assert!(!menu.wants_another("yep"));
    assert!(!menu.wants_another(""));
}

#[test]
fn number_formatting() {
    assert_eq!(decimal(0), "0");
    assert_eq!(decimal(8192), "8192");
    assert_eq!(decimal(u64::MAX), u64::MAX.to_string());
    assert_eq!(signed_decimal(-42), "-42");
    assert_eq!(signed_decimal(i64::MIN), i64::MIN.to_string());
    assert_eq!(money(7550), "75.50");
    assert_eq!(money(7), "0.07");
}
