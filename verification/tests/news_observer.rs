use fsm_kit::observer::{Listener, News, Observer, Subject};

#[test]
fn subscribers_are_kept_in_order() {
    let mut news: News<Listener> = News::new();
    news.subscribe(Listener::new("Alice".to_string()));
    news.subscribe(Listener::new("Bob".to_string()));
    assert_eq!(news.subscriber_names(), vec!["Alice", "Bob"]);
}

#[test]
fn unsubscribe_removes_by_name() {
    let mut news: News<Listener> = News::new();
    let alice = Listener::new("Alice".to_string());
    let bob = Listener::new("Bob".to_string());
    news.subscribe(alice.clone());
    news.subscribe(bob);
    news.post(&"today's weather will sunny".to_string());
    news.unsubscribe(&alice);
    assert_eq!(news.subscriber_names(), vec!["Bob"]);
    news.post(&"tomorrow's weather will raining".to_string());
}

#[test]
fn unsubscribe_of_absent_name_changes_nothing() {
    let mut news: News<Listener> = News::new();
    news.subscribe(Listener::new("Alice".to_string()));
    let stranger = Listener::new("Charlie".to_string());
    news.unsubscribe(&stranger);
    assert_eq!(news.subscriber_names(), vec!["Alice"]);
}

#[test]
fn unsubscribe_removes_only_the_first_of_equal_names() {
    let mut news: News<Listener> = News::new();
    news.subscribe(Listener::new("Alice".to_string()));
    news.subscribe(Listener::new("Bob".to_string()));
    news.subscribe(Listener::new("Alice".to_string()));
    news.unsubscribe(&Listener::new("Alice".to_string()));
    assert_eq!(news.subscriber_names(), vec!["Bob", "Alice"]);
}

#[test]
fn listener_reports_its_name() {
    let listener = Listener::new("Dana".to_string());
    assert_eq!(listener.name(), "Dana");
    listener.notify(&"an article".to_string());
    assert_eq!(listener.name(), "Dana");
}
