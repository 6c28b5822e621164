use mailbox::{begin_process, check_admission, conclude_process, deliver, dispatch, process};
use mailbox::{encode, identify, Caller, HandlerCall, HandlerError, HookError, HookRegistry};
use mailbox::{InstantiateMsg, IsmCall, IsmError, IsmRegistry, Mailbox, MailboxError, Message};
use mailbox::RecipientRegistry;

struct Isms {
    verdict: Result<bool, IsmError>,
    asked: Vec<(String, Vec<u8>, Message)>,
}

impl IsmRegistry for Isms {
    fn verify(
        &mut self,
        ism: &String,
        metadata: &Vec<u8>,
        message: &Message,
    ) -> Result<bool, IsmError> {
        self.asked.push((ism.clone(), metadata.clone(), message.clone()));
        self.verdict.clone()
    }
}

struct SignatureIsm {
    asked: u32,
}

impl IsmRegistry for SignatureIsm {
    fn verify(
        &mut self,
        _ism: &String,
        metadata: &Vec<u8>,
        _message: &Message,
    ) -> Result<bool, IsmError> {
        self.asked += 1;
        Ok(metadata == b"signed")
    }
}

struct Recipients {
    fail: bool,
    handled: Vec<(Vec<u8>, u32, Vec<u8>, Vec<u8>)>,
}

impl RecipientRegistry for Recipients {
    fn handle(
        &mut self,
        recipient: &Vec<u8>,
        origin_domain: u32,
        sender: &Vec<u8>,
        body: &Vec<u8>,
    ) -> Result<(), HandlerError> {
        self.handled.push((recipient.clone(), origin_domain, sender.clone(), body.clone()));
        if self.fail {
            Err(HandlerError { reason: String::from("recipient is stuck") })
        } else {
            Ok(())
        }
    }
}

struct NoHooks;

impl HookRegistry for NoHooks {
    fn execute(&mut self, _: &String, _: &Message, _: &Vec<u8>) -> Result<(), HookError> {
        Ok(())
    }
}

fn accepting() -> Isms {
    Isms { verdict: Ok(true), asked: vec![] }
}

fn answering(verdict: Result<bool, IsmError>) -> Isms {
    Isms { verdict, asked: vec![] }
}

fn recipients(fail: bool) -> Recipients {
    Recipients { fail, handled: vec![] }
}

fn destination(domain: u32) -> Mailbox {
    let mut mailbox = Mailbox::instantiate(InstantiateMsg {
        hrp: String::from("neutron"),
        owner: String::from("owner"),
        domain,
    });
    mailbox.set_default_ism(String::from("default-ism"));
    mailbox
}

fn ping() -> Message {
    Message {
        version: 3,
        nonce: 0,
        origin_domain: 1,
        sender: vec![0xa1; 32],
        destination_domain: 2,
        recipient: vec![0xb2; 32],
        body: b"ping".to_vec(),
    }
}

#[test]
fn a_dispatched_message_is_delivered_at_its_destination() {
    let mut origin = Mailbox::instantiate(InstantiateMsg {
        hrp: String::from("osmo"),
        owner: String::from("owner"),
        domain: 1,
    });
    origin.set_default_hook(String::from("hook"));
    let caller = Caller::new(vec![0xa1; 32], false).unwrap();
    let receipt = dispatch(
        &mut origin,
        &mut NoHooks,
        caller,
        2,
        vec![0xb2; 32],
        b"ping".to_vec(),
        None,
        None,
    )
    .unwrap();
    let bytes = encode(&ping());
    assert_eq!(identify(&ping()), receipt.message_id);

    let mut mailbox = destination(2);
    let mut isms = accepting();
    let mut handlers = recipients(false);
    assert!(!mailbox.is_delivered(&receipt.message_id));
    let result = process(&mut mailbox, &mut isms, &mut handlers, b"proof".to_vec(), bytes.clone());
    assert_eq!(result, Ok(()));
    assert!(mailbox.is_delivered(&receipt.message_id));
    assert_eq!(isms.asked, vec![(String::from("default-ism"), b"proof".to_vec(), ping())]);
    assert_eq!(
        handlers.handled,
        vec![(vec![0xb2; 32], 1, vec![0xa1; 32], b"ping".to_vec())]
    );

    let again = process(&mut mailbox, &mut isms, &mut handlers, b"proof".to_vec(), bytes);
    assert_eq!(again, Err(MailboxError::AlreadyDelivered));
    assert_eq!(isms.asked.len(), 1);
    assert_eq!(handlers.handled.len(), 1);
    assert_eq!(mailbox.delivered_count(), 1);
}

#[test]
fn process_twice_delivers_once() {
    let mut mailbox = destination(2);
    let mut isms = accepting();
    let mut handlers = recipients(false);
    let bytes = encode(&ping());
    assert_eq!(process(&mut mailbox, &mut isms, &mut handlers, vec![1], bytes.clone()), Ok(()));
    for _ in 0..3 {
        assert_eq!(
            process(&mut mailbox, &mut isms, &mut handlers, vec![1], bytes.clone()),
            Err(MailboxError::AlreadyDelivered)
        );
    }
    assert_eq!(
        process(&mut mailbox, &mut isms, &mut handlers, vec![2, 2], bytes),
        Err(MailboxError::AlreadyDelivered)
    );
    assert_eq!(handlers.handled.len(), 1);
    assert_eq!(isms.asked.len(), 1);
    assert_eq!(mailbox.delivered_count(), 1);
}

#[test]
fn process_refuses_another_destination_before_verification() {
    let mut mailbox = destination(3);
    let mut isms = accepting();
    let mut handlers = recipients(false);
    let result = process(&mut mailbox, &mut isms, &mut handlers, vec![], encode(&ping()));
    assert_eq!(result, Err(MailboxError::WrongDestination));
    assert!(isms.asked.is_empty());
    assert!(handlers.handled.is_empty());
    assert!(!mailbox.is_delivered(&identify(&ping())));
    assert_eq!(mailbox.delivered_count(), 0);
}

#[test]
fn process_with_a_failing_ism_can_be_tried_again() {
    let mut mailbox = destination(2);
    let mut ism = SignatureIsm { asked: 0 };
    let mut handlers = recipients(false);
    let bytes = encode(&ping());
    let id = identify(&ping());
    let first = process(&mut mailbox, &mut ism, &mut handlers, b"unsigned".to_vec(), bytes.clone());
    assert_eq!(first, Err(MailboxError::VerificationFailed));
    assert!(!mailbox.is_delivered(&id));
    assert_eq!(mailbox.delivered_count(), 0);
    assert!(handlers.handled.is_empty());
    let second = process(&mut mailbox, &mut ism, &mut handlers, b"signed".to_vec(), bytes);
    assert_eq!(second, Ok(()));
    assert!(mailbox.is_delivered(&id));
    assert_eq!(handlers.handled.len(), 1);
    assert_eq!(ism.asked, 2);
}

#[test]
fn process_treats_an_ism_error_as_a_failed_verification() {
    let mut mailbox = destination(2);
    let mut isms = answering(Err(IsmError { reason: String::from("bad metadata") }));
    let mut handlers = recipients(false);
    let result = process(&mut mailbox, &mut isms, &mut handlers, vec![], encode(&ping()));
    assert_eq!(result, Err(MailboxError::VerificationFailed));
    assert_eq!(mailbox.delivered_count(), 0);
    let mut refusing = answering(Ok(false));
    let result = process(&mut mailbox, &mut refusing, &mut handlers, vec![], encode(&ping()));
    assert_eq!(result, Err(MailboxError::VerificationFailed));
    assert_eq!(mailbox.delivered_count(), 0);
    assert!(handlers.handled.is_empty());
}

#[test]
fn process_refuses_an_unsupported_version() {
    let mut mailbox = destination(2);
    let mut isms = accepting();
    let mut handlers = recipients(false);
    for version in [0u8, 1, 2, 4, 255] {
        let mut message = ping();
        message.version = version;
        let result = process(&mut mailbox, &mut isms, &mut handlers, vec![], encode(&message));
        assert_eq!(result, Err(MailboxError::UnsupportedVersion));
        assert!(!mailbox.is_delivered(&identify(&message)));
    }
    assert_eq!(mailbox.delivered_count(), 0);
    assert!(isms.asked.is_empty());
    assert!(handlers.handled.is_empty());
}

#[test]
fn process_judges_the_version_before_the_destination() {
    let mut mailbox = destination(9);
    let mut message = ping();
    message.version = 2;
    let result = process(
        &mut mailbox,
        &mut accepting(),
        &mut recipients(false),
        vec![],
        encode(&message),
    );
    assert_eq!(result, Err(MailboxError::UnsupportedVersion));
}

#[test]
fn process_refuses_malformed_bytes() {
    let mut mailbox = destination(2);
    let mut isms = accepting();
    let mut handlers = recipients(false);
    for len in [0usize, 1, 76] {
        let result = process(&mut mailbox, &mut isms, &mut handlers, vec![], vec![3; len]);
        assert_eq!(result, Err(MailboxError::MalformedMessage));
    }
    assert!(isms.asked.is_empty());
    assert_eq!(mailbox.delivered_count(), 0);
}

#[test]
fn process_without_any_ism_is_refused() {
    let mut mailbox = Mailbox::instantiate(InstantiateMsg {
        hrp: String::from("neutron"),
        owner: String::from("owner"),
        domain: 2,
    });
    let mut isms = accepting();
    let mut handlers = recipients(false);
    let result = process(&mut mailbox, &mut isms, &mut handlers, vec![], encode(&ping()));
    assert_eq!(result, Err(MailboxError::NoIsmConfigured));
    assert!(isms.asked.is_empty());
    assert_eq!(mailbox.delivered_count(), 0);
}

#[test]
fn process_asks_the_recipients_own_ism() {
    let mut mailbox = destination(2);
    mailbox.set_recipient_ism(vec![0xb2; 32], String::from("multisig"));
    let mut isms = accepting();
    let mut handlers = recipients(false);
    process(&mut mailbox, &mut isms, &mut handlers, vec![], encode(&ping())).unwrap();
    let mut other = ping();
    other.recipient = vec![0xc3; 32];
    process(&mut mailbox, &mut isms, &mut handlers, vec![], encode(&other)).unwrap();
    assert_eq!(isms.asked[0].0, "multisig");
    assert_eq!(isms.asked[1].0, "default-ism");
}

#[test]
fn a_failing_handler_fails_the_call_but_the_message_stays_delivered() {
    let mut mailbox = destination(2);
    let mut isms = accepting();
    let mut stuck = recipients(true);
    let bytes = encode(&ping());
    let result = process(&mut mailbox, &mut isms, &mut stuck, vec![], bytes.clone());
    assert_eq!(result, Err(MailboxError::HandlerExecutionFailed));
    assert!(mailbox.is_delivered(&identify(&ping())));
    assert_eq!(stuck.handled.len(), 1);
    let mut healthy = recipients(false);
    let again = process(&mut mailbox, &mut isms, &mut healthy, vec![], bytes);
    assert_eq!(again, Err(MailboxError::AlreadyDelivered));
    assert!(healthy.handled.is_empty());
}

#[test]
fn messages_that_differ_only_in_the_nonce_are_both_delivered() {
    let mut mailbox = destination(2);
    let mut isms = accepting();
    let mut handlers = recipients(false);
    let mut second = ping();
    second.nonce = 1;
    process(&mut mailbox, &mut isms, &mut handlers, vec![], encode(&ping())).unwrap();
    process(&mut mailbox, &mut isms, &mut handlers, vec![], encode(&second)).unwrap();
    assert_eq!(mailbox.delivered_count(), 2);
    assert_eq!(handlers.handled.len(), 2);
}

#[test]
fn process_leaves_the_nonce_counter_alone() {
    let mut mailbox = destination(2);
    process(&mut mailbox, &mut accepting(), &mut recipients(false), vec![], encode(&ping()))
        .unwrap();
    assert_eq!(mailbox.nonce(), 0);
    assert_eq!(mailbox.local_domain(), 2);
}

#[test]
fn begin_process_names_the_verification() {
    let mailbox = destination(2);
    let call: IsmCall = begin_process(&mailbox, vec![4, 5], &encode(&ping())).unwrap();
    assert_eq!(call.ism, "default-ism");
    assert_eq!(call.metadata, vec![4, 5]);
    assert_eq!(call.message, ping());
    assert_eq!(call.message_id, identify(&ping()));
    assert_eq!(mailbox.delivered_count(), 0);
    assert_eq!(
        begin_process(&destination(5), vec![], &encode(&ping())),
        Err(MailboxError::WrongDestination)
    );
    assert_eq!(begin_process(&mailbox, vec![], &vec![1, 2, 3]), Err(MailboxError::MalformedMessage));
}

#[test]
fn check_admission_makes_its_checks_in_order() {
    let mut mailbox = destination(2);
    let id: Vec<u8> = identify(&ping());
    assert_eq!(check_admission(&mailbox, &ping(), &id), Ok(String::from("default-ism")));
    let mut wrong_version = ping();
    wrong_version.version = 1;
    wrong_version.destination_domain = 8;
    assert_eq!(
        check_admission(&mailbox, &wrong_version, &id),
        Err(MailboxError::UnsupportedVersion)
    );
    let mut elsewhere = ping();
    elsewhere.destination_domain = 8;
    assert_eq!(check_admission(&mailbox, &elsewhere, &id), Err(MailboxError::WrongDestination));
    deliver(&mut mailbox, ping(), Ok(true)).unwrap();
    assert_eq!(check_admission(&mailbox, &ping(), &id), Err(MailboxError::AlreadyDelivered));
    assert_eq!(
        check_admission(&mailbox, &elsewhere, &id),
        Err(MailboxError::WrongDestination)
    );
    assert_eq!(check_admission(&mailbox, &ping(), &vec![8; 32]), Ok(String::from("default-ism")));
    mailbox.set_recipient_ism(vec![0xb2; 32], String::from("own"));
    assert_eq!(check_admission(&mailbox, &ping(), &vec![8; 32]), Ok(String::from("own")));
}

#[test]
fn deliver_records_the_identifier_and_names_the_handler_call() {
    let mut mailbox = destination(2);
    let call: HandlerCall = deliver(&mut mailbox, ping(), Ok(true)).unwrap();
    assert_eq!(
        call,
        HandlerCall {
            recipient: vec![0xb2; 32],
            origin_domain: 1,
            sender: vec![0xa1; 32],
            body: b"ping".to_vec(),
        }
    );
    assert!(mailbox.is_delivered(&identify(&ping())));
    assert_eq!(deliver(&mut mailbox, ping(), Ok(true)), Err(MailboxError::AlreadyDelivered));
    assert_eq!(mailbox.delivered_count(), 1);
}

#[test]
fn deliver_records_nothing_without_an_accepting_verdict() {
    let mut mailbox = destination(2);
    let id: Vec<u8> = identify(&ping());
    assert_eq!(deliver(&mut mailbox, ping(), Ok(false)), Err(MailboxError::VerificationFailed));
    let broken = Err(IsmError { reason: String::from("unreachable") });
    assert_eq!(deliver(&mut mailbox, ping(), broken), Err(MailboxError::VerificationFailed));
    assert!(!mailbox.is_delivered(&id));
    let mut elsewhere = ping();
    elsewhere.destination_domain = 3;
    assert_eq!(deliver(&mut mailbox, elsewhere, Ok(true)), Err(MailboxError::WrongDestination));
    assert!(!mailbox.is_delivered(&id));
    assert_eq!(mailbox.delivered_count(), 0);
}

#[test]
fn conclude_process_maps_the_handlers_outcome() {
    assert_eq!(conclude_process(Ok(())), Ok(()));
    assert_eq!(
        conclude_process(Err(HandlerError { reason: String::from("panic") })),
        Err(MailboxError::HandlerExecutionFailed)
    );
}

#[test]
fn over_a_mixed_series_of_calls_the_counter_and_the_ledger_only_grow() {
    let mut mailbox = destination(2);
    mailbox.set_default_hook(String::from("hook"));
    let mut isms = accepting();
    let mut handlers = recipients(false);
    let mut last_nonce: u32 = 0;
    let mut delivered: Vec<Vec<u8>> = vec![];
    for round in 0..6u32 {
        let caller = Caller::new(vec![0xa1; 32], false).unwrap();
        let sent = dispatch(&mut mailbox, &mut NoHooks, caller, 9, vec![1; 32], vec![], None, None);
        assert!(sent.is_ok());
        let mut inbound = ping();
        inbound.nonce = round / 2;
        let id = identify(&inbound);
        let result = process(&mut mailbox, &mut isms, &mut handlers, vec![], encode(&inbound));
        if round % 2 == 0 {
            assert_eq!(result, Ok(()));
            delivered.push(id);
        } else {
            assert_eq!(result, Err(MailboxError::AlreadyDelivered));
        }
        mailbox.set_default_ism(format!("ism-{}", round));
        assert_eq!(mailbox.local_domain(), 2);
        assert!(mailbox.nonce() > last_nonce || round == 0 && mailbox.nonce() == 1);
        last_nonce = mailbox.nonce();
        for id in &delivered {
            assert!(mailbox.is_delivered(id));
        }
        assert_eq!(mailbox.delivered_count(), delivered.len());
    }
    assert_eq!(mailbox.nonce(), 6);
    assert_eq!(handlers.handled.len(), 3);
}
