use awproto::opcodes::{ClientMessage, MessageType, SyncMessage, UserMessage};
use awproto::registry::MessageTypeRegistry;

#[test]
fn register_then_lookup_returns_last_registered() {
    let mut reg: MessageTypeRegistry<i32> = MessageTypeRegistry::new();
    let login = MessageType::User(UserMessage::Login);
    let chat = MessageType::Client(ClientMessage::Chat);

    assert_eq!(reg.register(login, 1), None);
    assert_eq!(reg.lookup(login), Some(&1));

    // The last writer wins and the previous handler is handed back.
    assert_eq!(reg.register(login, 2), Some(1));
    assert_eq!(reg.lookup(login), Some(&2));

    assert_eq!(reg.register(chat, 3), None);
    assert_eq!(reg.lookup(chat), Some(&3));
    assert_eq!(reg.lookup(login), Some(&2));
}

#[test]
fn lookup_of_unregistered_type_is_absent() {
    let mut reg: MessageTypeRegistry<u8> = MessageTypeRegistry::new();
    let bound = MessageType::Sync(SyncMessage::Echo);
    let unbound = MessageType::Sync(SyncMessage::Login);
    assert_eq!(reg.lookup(bound), None);
    reg.register(bound, 9);
    assert_eq!(reg.lookup(bound), Some(&9));
    assert_eq!(reg.lookup(unbound), None);
}

#[test]
fn keys_compare_by_class_and_opcode() {
    // The same opcode under different classes names different types.
    let mut reg: MessageTypeRegistry<&str> = MessageTypeRegistry::new();
    let a = MessageType::Client(ClientMessage::AddObject);
    let b = MessageType::Sync(SyncMessage::AddObject);
    reg.register(a, "client");
    reg.register(b, "sync");
    assert_eq!(reg.lookup(a), Some(&"client"));
    assert_eq!(reg.lookup(b), Some(&"sync"));
}

#[test]
fn handlers_as_callables() {
    // Handlers in the host are plain no-argument callables.
    fn on_login() {}
    fn on_chat() {}
    let mut reg: MessageTypeRegistry<fn()> = MessageTypeRegistry::new();
    reg.register(MessageType::User(UserMessage::Login), on_login as fn());
    reg.register(MessageType::Client(ClientMessage::Chat), on_chat as fn());
    if let Some(h) = reg.lookup(MessageType::User(UserMessage::Login)) {
        h();
    } else {
        panic!("handler not found");
    }
}
