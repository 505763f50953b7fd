use design_patterns::builder::DatabaseConfigBuilder;
use design_patterns::factory::{Animal, AnimalFactory, AnimalType, Pet};
use design_patterns::singleton::{LogLevel, Logger};

#[test]
fn builder_full_config() {
    let config = DatabaseConfigBuilder::new()
        .host("localhost")
        .port(5432)
        .username("admin")
        .password("secret")
        .ssl(true)
        .connection_timeout(60)
        .build()
        .expect("complete configuration");
    assert_eq!(config.host, "localhost");
    assert_eq!(config.port, 5432);
    assert_eq!(config.username, "admin");
    assert_eq!(config.password, "secret");
    assert!(config.ssl);
    assert_eq!(config.connection_timeout, 60);
}

#[test]
fn builder_default_timeout_and_ssl() {
    let config = DatabaseConfigBuilder::new()
        .host("production.example.com")
        .port(3306)
        .username("dbuser")
        .password("secure123")
        .build()
        .unwrap();
    assert_eq!(config.connection_timeout, 30);
    assert!(!config.ssl);
}

#[test]
fn builder_missing_fields_in_order() {
    let e = DatabaseConfigBuilder::new().build().err().unwrap();
    assert_eq!(e, "Host is required");
    let e = DatabaseConfigBuilder::new().host("h").build().err().unwrap();
    assert_eq!(e, "Port is required");
    let e = DatabaseConfigBuilder::new().host("localhost").port(5432).build().err().unwrap();
    assert_eq!(e, "Username is required");
    let e = DatabaseConfigBuilder::new().host("h").port(1).username("u").build().err().unwrap();
    assert_eq!(e, "Password is required");
    let e = DatabaseConfigBuilder::new().password("p").username("u").build().err().unwrap();
    assert_eq!(e, "Host is required");
}

#[test]
fn builder_last_setting_wins() {
    let config = DatabaseConfigBuilder::new()
        .host("a")
        .host("b")
        .port(1)
        .port(2)
        .username("u")
        .password("p")
        .build()
        .unwrap();
    assert_eq!(config.host, "b");
    assert_eq!(config.port, 2);
}

#[test]
fn factory_makes_dog_and_cat() {
    let dog = AnimalFactory::create_animal(AnimalType::Dog, "Buddy", 30000).unwrap();
    assert_eq!(dog.make_sound(), "Buddy says: Woof!");
    assert_eq!(dog.get_species(), "Canis lupus familiaris");
    assert_eq!(dog.get_weight(), 30000);
    assert!(matches!(dog, Pet::Dog(_)));
    let cat = AnimalFactory::create_animal(AnimalType::Cat, "Whiskers", 5000).unwrap();
    assert_eq!(cat.make_sound(), "Whiskers says: Meow!");
    assert_eq!(cat.get_species(), "Felis catus");
    assert_eq!(cat.get_weight(), 5000);
}

#[test]
fn factory_weight_bounds() {
    assert!(AnimalFactory::create_animal(AnimalType::Dog, "d", 1000).is_ok());
    assert!(AnimalFactory::create_animal(AnimalType::Dog, "d", 100000).is_ok());
    let e = AnimalFactory::create_animal(AnimalType::Dog, "Tiny", 500).err().unwrap();
    assert_eq!(e, "Dog weight must be between 1.0 and 100.0 kg");
    assert!(AnimalFactory::create_animal(AnimalType::Dog, "d", 100001).is_err());
    assert!(AnimalFactory::create_animal(AnimalType::Cat, "c", 500).is_ok());
    assert!(AnimalFactory::create_animal(AnimalType::Cat, "c", 20000).is_ok());
    let e = AnimalFactory::create_animal(AnimalType::Cat, "c", 20001).err().unwrap();
    assert_eq!(e, "Cat weight must be between 0.5 and 20.0 kg");
    assert!(AnimalFactory::create_animal(AnimalType::Cat, "c", 499).is_err());
}

#[test]
fn factory_refuses_birds() {
    let e = AnimalFactory::create_animal(AnimalType::Bird, "Tweety", 100).err().unwrap();
    assert_eq!(e, "Bird implementation not yet available");
}

#[test]
fn factory_average_animals() {
    let dog = AnimalFactory::create_dog("Max");
    assert_eq!(dog.get_weight(), 25000);
    assert_eq!(dog.make_sound(), "Max says: Woof!");
    let cat = AnimalFactory::create_cat("Luna");
    assert_eq!(cat.get_weight(), 4500);
    assert_eq!(cat.make_sound(), "Luna says: Meow!");
}

#[test]
fn logger_keeps_recent_newest_first() {
    let mut logger = Logger::new();
    logger.info("Application started");
    logger.warning("This is a warning message");
    logger.error("An error occurred");
    logger.debug("Debug information");
    let recent = logger.get_recent_logs(2);
    assert_eq!(recent.len(), 2);
    assert_eq!(recent[0].message(), "Debug information");
    assert_eq!(recent[0].level(), LogLevel::Debug);
    assert_eq!(recent[1].message(), "An error occurred");
    assert_eq!(recent[1].level(), LogLevel::Error);
    assert_eq!(logger.get_recent_logs(10).len(), 4);
    assert_eq!(logger.get_recent_logs(0).len(), 0);
}

#[test]
fn logger_drops_oldest_beyond_capacity() {
    let mut logger = Logger::with_max_logs(2);
    logger.info("one");
    logger.info("two");
    logger.info("three");
    let recent = logger.get_recent_logs(5);
    assert_eq!(recent.len(), 2);
    assert_eq!(recent[0].message(), "three");
    assert_eq!(recent[1].message(), "two");
}

#[test]
fn logger_default_capacity() {
    let mut logger = Logger::new();
    for _ in 0..1005 {
        logger.info("x");
    }
    assert_eq!(logger.get_recent_logs(2000).len(), 1000);
}

#[test]
fn log_level_labels() {
    assert_eq!(LogLevel::Info.label(), "INFO");
    assert_eq!(LogLevel::Warning.label(), "WARN");
    assert_eq!(LogLevel::Error.label(), "ERROR");
    assert_eq!(LogLevel::Debug.label(), "DEBUG");
}
