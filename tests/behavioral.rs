use design_patterns::chain_of_responsibility::{
    approval_chain, CEOHandler, DirectorHandler, Handler, ManagerHandler, Request,
};
use design_patterns::command::{
    Command, Light, LightCommand, RemoteControl, TurnOffCommand, TurnOnCommand,
};
use design_patterns::memento::{Caretaker, Originator};
use design_patterns::observer::{
    EmailNotifier, NewsSubject, Observer, SMSSender, Subscriber,
};
use design_patterns::state::{Context, State};
use design_patterns::strategy::{
    BitcoinPayment, CreditCardPayment, PayPalPayment, PaymentProcessor,
};
use design_patterns::template_method::{CSVProcessor, DataProcessor, JSONProcessor};
use design_patterns::visitor::{ConcreteVisitor, CountVisitor, Element, ElementA, ElementB};

#[test]
fn chain_manager_then_director() {
    let mut manager = ManagerHandler::new();
    manager.set_next(DirectorHandler::<CEOHandler>::new());
    let r = manager.handle(&Request::new(500, "Office supplies"));
    assert_eq!(r.as_deref(), Some("✅ Manager approved: Office supplies"));
    let r = manager.handle(&Request::new(1000, "Edge"));
    assert_eq!(r.as_deref(), Some("✅ Manager approved: Edge"));
    let r = manager.handle(&Request::new(5000, "Equipment upgrade"));
    assert_eq!(r.as_deref(), Some("✅ Director approved: Equipment upgrade"));
    assert_eq!(manager.handle(&Request::new(50000, "Infrastructure project")), None);
    assert_eq!(manager.handle(&Request::new(200000, "Acquisition")), None);
}

#[test]
fn chain_full_escalation() {
    let mut director = DirectorHandler::new();
    director.set_next(CEOHandler::new());
    let mut manager = ManagerHandler::new();
    manager.set_next(director);
    let r = manager.handle(&Request::new(10000, "Servers"));
    assert_eq!(r.as_deref(), Some("✅ Director approved: Servers"));
    let r = manager.handle(&Request::new(50000, "Infrastructure project"));
    assert_eq!(r.as_deref(), Some("✅ CEO approved: Infrastructure project"));
    let r = manager.handle(&Request::new(100000, "Limit"));
    assert_eq!(r.as_deref(), Some("✅ CEO approved: Limit"));
    let r = manager.handle(&Request::new(200000, "Acquisition"));
    assert_eq!(r.as_deref(), Some("❌ Request rejected: amount too large"));
}

#[test]
fn chain_without_successor() {
    let manager: ManagerHandler<CEOHandler> = ManagerHandler::new();
    assert_eq!(manager.handle(&Request::new(1001, "x")), None);
    let mut ceo = CEOHandler::new();
    ceo.set_next(ManagerHandler::<CEOHandler>::new());
    let r = ceo.handle(&Request::new(100001, "x"));
    assert_eq!(r.as_deref(), Some("❌ Request rejected: amount too large"));
}

#[test]
fn approval_chain_escalates_to_first_fitting_limit() {
    let chain = approval_chain();
    let answers: Vec<Option<String>> = [
        (500, "Office supplies"),
        (5000, "Equipment upgrade"),
        (50000, "Infrastructure project"),
        (200000, "Acquisition"),
    ]
    .iter()
    .map(|(amount, description)| chain.handle(&Request::new(*amount, description)))
    .collect();
    assert_eq!(
        answers,
        vec![
            Some("✅ Manager approved: Office supplies".to_string()),
            Some("✅ Director approved: Equipment upgrade".to_string()),
            Some("✅ CEO approved: Infrastructure project".to_string()),
            Some("❌ Request rejected: amount too large".to_string()),
        ]
    );
    let r = chain.handle(&Request::new(1001, "Just over"));
    assert_eq!(r.as_deref(), Some("✅ Director approved: Just over"));
    let r = chain.handle(&Request::new(10001, "Just over"));
    assert_eq!(r.as_deref(), Some("✅ CEO approved: Just over"));
    let r = chain.handle(&Request::new(100001, "Just over"));
    assert_eq!(r.as_deref(), Some("❌ Request rejected: amount too large"));
}

#[test]
fn state_cycles_through_three_phases() {
    let mut context = Context::new();
    assert_eq!(context.state(), State::Idle);
    assert_eq!(context.request(), "Idle → Active");
    assert_eq!(context.state(), State::Active);
    assert_eq!(context.request(), "Active → Processing");
    assert_eq!(context.state(), State::Processing);
    assert_eq!(context.request(), "Processing → Idle");
    assert_eq!(context.state(), State::Idle);
    assert_eq!(context.request(), "Idle → Active");
}

#[test]
fn state_set_directly() {
    let mut context = Context::new();
    context.set_state(State::Processing);
    assert_eq!(context.request(), "Processing → Idle");
}

#[test]
fn command_execute_then_undo() {
    let mut light = Light::new();
    assert!(!light.is_on());
    let mut remote = RemoteControl::new();
    remote.add_command(LightCommand::On(TurnOnCommand::new()));
    remote.add_command(LightCommand::Off(TurnOffCommand::new()));
    assert_eq!(remote.execute_all(&mut light), vec![true, false]);
    assert!(!light.is_on());
    assert_eq!(remote.undo_all(&mut light), vec![true, false]);
    assert!(!light.is_on());
}

#[test]
fn command_names_and_single_steps() {
    assert_eq!(TurnOnCommand::new().name(), "Turn On");
    assert_eq!(TurnOffCommand::new().name(), "Turn Off");
    let mut light = Light::new();
    TurnOnCommand::new().execute(&mut light);
    assert!(light.is_on());
    TurnOnCommand::new().undo(&mut light);
    assert!(!light.is_on());
    TurnOffCommand::new().undo(&mut light);
    assert!(light.is_on());
    let empty: RemoteControl<LightCommand> = RemoteControl::new();
    assert!(empty.execute_all(&mut light).is_empty());
    assert!(light.is_on());
}

#[test]
fn memento_restores_saved_state() {
    let mut game = Originator::new("Level 1 - Village");
    let mut caretaker = Caretaker::new();
    caretaker.add_memento(game.create_memento());
    game.set_state("Level 2 - Forest");
    caretaker.add_memento(game.create_memento());
    game.set_state("Level 3 - Castle");
    assert_eq!(game.get_state(), "Level 3 - Castle");
    assert_eq!(caretaker.get_save_count(), 2);
    game.restore_from_memento(caretaker.get_memento(0).unwrap());
    assert_eq!(game.get_state(), "Level 1 - Village");
    assert_eq!(caretaker.get_memento(1).unwrap().get_state(), "Level 2 - Forest");
    assert!(caretaker.get_memento(2).is_none());
}

fn demo_subject() -> NewsSubject<Subscriber> {
    let mut subject = NewsSubject::new();
    subject.attach(Subscriber::Email(EmailNotifier::new(
        "Tech News Subscriber",
        "user@example.com",
        vec!["Technology".to_string(), "Science".to_string()],
    )));
    subject.attach(Subscriber::Sms(SMSSender::new(
        "Emergency Alert System",
        "+1234567890",
        vec!["Breaking".to_string(), "Emergency".to_string()],
    )));
    subject
}

#[test]
fn observer_notifies_by_category() {
    let mut subject = demo_subject();
    assert_eq!(subject.observer_count(), 2);
    let sent = subject.publish_news("New AI Breakthrough", "Scientists...", "Technology");
    assert_eq!(
        sent,
        vec!["📧 Email sent to user@example.com (Tech News Subscriber) about: New AI Breakthrough"]
    );
    let sent = subject.publish_news("Breaking: Earthquake Alert", "Earthquake...", "Breaking");
    assert_eq!(
        sent,
        vec!["📱 SMS sent to +1234567890 (Emergency Alert System) about: Breaking: Earthquake Alert"]
    );
    let sent = subject.publish_news("Weather Update", "Sunny...", "Weather");
    assert!(sent.is_empty());
    assert_eq!(subject.events().len(), 3);
    assert_eq!(subject.events()[0].id, 1);
    assert_eq!(subject.events()[2].id, 3);
    assert_eq!(subject.events()[2].content, "Sunny...");
    assert_eq!(subject.next_id(), 4);
}

#[test]
fn observer_detach_by_name() {
    let mut subject = demo_subject();
    subject.detach("Tech News Subscriber");
    assert_eq!(subject.observer_count(), 1);
    let sent = subject.publish_news("Another Tech Update", "More...", "Technology");
    assert!(sent.is_empty());
    subject.detach("nobody");
    assert_eq!(subject.observer_count(), 1);
}

#[test]
fn email_without_categories_gets_everything() {
    let all = EmailNotifier::new("All", "all@example.com", vec![]);
    assert_eq!(all.get_name(), "All");
    let mut subject = NewsSubject::new();
    subject.attach(all);
    let sent = subject.publish_news("Anything", "c", "Weather");
    assert_eq!(sent, vec!["📧 Email sent to all@example.com (All) about: Anything"]);
}

#[test]
fn strategy_receipts() {
    assert_eq!(
        PaymentProcessor::new(CreditCardPayment).process_payment(10000),
        "Paid $100.00 using Credit Card"
    );
    assert_eq!(PaymentProcessor::new(PayPalPayment).process_payment(5000), "Paid $50.00 using PayPal");
    assert_eq!(PaymentProcessor::new(BitcoinPayment).process_payment(7550), "Paid $75.50 using Bitcoin");
    assert_eq!(PaymentProcessor::new(BitcoinPayment).process_payment(5), "Paid $0.05 using Bitcoin");
}

#[test]
fn template_method_fixed_order() {
    let lines = CSVProcessor.process();
    assert_eq!(lines.len(), 8);
    assert_eq!(lines[0], "📊 Data Processing Pipeline");
    assert_eq!(lines[1], "=".repeat(40));
    assert_eq!(lines[2], "📁 Loading CSV data...");
    assert_eq!(lines[3], "✓ Validating CSV format...");
    assert_eq!(lines[4], "🔄 Transforming CSV data...");
    assert_eq!(lines[5], "💾 Saving processed CSV data...");
    assert_eq!(lines[6], "=".repeat(40));
    assert_eq!(lines[7], "✅ Processing complete!");
    let lines = JSONProcessor.process();
    assert_eq!(lines[2], "📁 Loading JSON data...");
    assert_eq!(lines[5], "💾 Saving processed JSON data...");
}

#[test]
fn visitor_reports() {
    let visitor = ConcreteVisitor;
    assert_eq!(ElementA::new(42).accept(&visitor), "Visiting ElementA with value: 42");
    assert_eq!(ElementA::new(-7).accept(&visitor), "Visiting ElementA with value: -7");
    assert_eq!(ElementB::new("Hello").accept(&visitor), "Visiting ElementB with value: Hello");
    let counter = CountVisitor::new();
    assert_eq!(ElementA::new(100).accept(&counter), "Counting ElementA...");
    assert_eq!(ElementB::new("x").accept(&counter), "Counting ElementB...");
    assert_eq!(counter.get_count(), 0);
    assert_eq!(ElementA::new(1).get_name(), "ElementA");
    assert_eq!(ElementB::new("y").get_name(), "ElementB");
}
