use grainfather::{
    find_characteristic, resolve_characteristics, Characteristic, Delay, EirEntry, Grainfather,
    GrainfatherClient, GrainfatherClientError, GrainfatherClientImpl, GrainfatherCommand,
    GrainfatherConvertError, Recipe, SessionState, Temperature, CHARACTERISTIC_ID_READ,
    CHARACTERISTIC_ID_WRITE, SERVICE_ID,
};
use std::cell::RefCell;
use std::rc::Rc;

fn characteristic(uuid: u128, handle: u16) -> Characteristic {
    Characteristic { start_handle: handle, end_handle: handle, value_handle: handle, uuid, properties: 0 }
}

struct Double {
    connected: bool,
    characteristics: Vec<Characteristic>,
    fail_connect: bool,
    fail_write_after: usize,
    log: Rc<RefCell<Vec<String>>>,
    writes: Rc<RefCell<Vec<(u128, Vec<u8>)>>>,
}

impl Double {
    fn new(connected: bool, characteristics: Vec<Characteristic>) -> Double {
        Double {
            connected,
            characteristics,
            fail_connect: false,
            fail_write_after: usize::MAX,
            log: Rc::new(RefCell::new(Vec::new())),
            writes: Rc::new(RefCell::new(Vec::new())),
        }
    }
}

impl GrainfatherClientImpl for Double {
    type Error = String;

    fn is_connected(&self) -> bool {
        self.connected
    }

    fn connect(&self) -> Result<(), String> {
        self.log.borrow_mut().push("connect".to_string());
        if self.fail_connect {
            Err("no radio".to_string())
        } else {
            Ok(())
        }
    }

    fn command(&self, characteristic: &Characteristic, data: &[u8]) -> Result<(), String> {
        if self.writes.borrow().len() >= self.fail_write_after {
            return Err("write".to_string());
        }
        self.writes.borrow_mut().push((characteristic.uuid, data.to_vec()));
        Ok(())
    }

    fn discover_characteristics(&self) -> Result<Vec<Characteristic>, String> {
        self.log.borrow_mut().push("discover".to_string());
        Ok(self.characteristics.clone())
    }

    fn subscribe(&self, characteristic: &Characteristic) -> Result<(), String> {
        self.log.borrow_mut().push(format!("subscribe {:x}", characteristic.uuid));
        Ok(())
    }
}

fn both() -> Vec<Characteristic> {
    vec![characteristic(1, 1), characteristic(CHARACTERISTIC_ID_WRITE, 2), characteristic(CHARACTERISTIC_ID_READ, 3)]
}

#[test]
fn opens_and_writes_frames() {
    let double = Double::new(false, both());
    let log = double.log.clone();
    let writes = double.writes.clone();
    let client = GrainfatherClient::try_from(double).unwrap();
    assert_eq!(client.state(), SessionState::Connected);
    assert_eq!(*log.borrow(), vec!["connect".to_string(), "discover".to_string()]);
    client.command(&GrainfatherCommand::SetHeatActive(true)).unwrap();
    client.command(&GrainfatherCommand::UpdateActiveTimer(Delay::Minutes(3))).unwrap();
    assert_eq!(
        *writes.borrow(),
        vec![
            (CHARACTERISTIC_ID_WRITE, b"K1                 ".to_vec()),
            (CHARACTERISTIC_ID_WRITE, b"S3                 ".to_vec()),
        ]
    );
}

#[test]
fn connects_only_when_needed() {
    let double = Double::new(true, both());
    let log = double.log.clone();
    let client = GrainfatherClient::try_from(double).unwrap();
    assert_eq!(client.state(), SessionState::Connected);
    assert_eq!(*log.borrow(), vec!["discover".to_string()]);
}

#[test]
fn connect_failure_is_reported() {
    let mut double = Double::new(false, both());
    double.fail_connect = true;
    match GrainfatherClient::try_from(double) {
        Err(GrainfatherClientError::Connect(e)) => assert_eq!(e, "no radio"),
        _ => panic!("expected a connect failure"),
    }
}

#[test]
fn missing_characteristics_are_reported() {
    let only_write = vec![characteristic(CHARACTERISTIC_ID_WRITE, 2)];
    assert!(matches!(
        GrainfatherClient::try_from(Double::new(true, only_write)),
        Err(GrainfatherClientError::ReadCharacteristic)
    ));
    let only_read = vec![characteristic(CHARACTERISTIC_ID_READ, 3)];
    assert!(matches!(
        GrainfatherClient::try_from(Double::new(true, only_read)),
        Err(GrainfatherClientError::WriteCharacteristic)
    ));
}

#[test]
fn resolves_first_matching_characteristics() {
    let cs = vec![
        characteristic(CHARACTERISTIC_ID_READ, 7),
        characteristic(CHARACTERISTIC_ID_WRITE, 8),
        characteristic(CHARACTERISTIC_ID_READ, 9),
    ];
    let r: Result<_, GrainfatherClientError<String>> = resolve_characteristics(&cs);
    let (read, write) = r.unwrap();
    assert_eq!(read.value_handle, 7);
    assert_eq!(write.value_handle, 8);
    assert_eq!(find_characteristic(&cs, 42), None);
}

#[test]
fn subscribe_moves_to_subscribed() {
    let double = Double::new(true, both());
    let log = double.log.clone();
    let mut client = GrainfatherClient::try_from(double).unwrap();
    client.subscribe().unwrap();
    assert_eq!(log.borrow()[1], format!("subscribe {:x}", CHARACTERISTIC_ID_READ));
    assert_eq!(client.state(), SessionState::Subscribed);
}

#[test]
fn recipe_keeps_step_order() {
    let recipe = Recipe {
        steps: vec![
            GrainfatherCommand::SetTargetTemperature(Temperature { tenths: 670 }),
            GrainfatherCommand::EnableDelayedHeatTimer { minutes: 61, seconds: 0 },
            GrainfatherCommand::PressSet,
        ],
    };
    let frames = recipe.to_commands();
    assert_eq!(frames.len(), 3);
    assert_eq!(frames[0], b"$67                ".to_vec());
    assert_eq!(frames[1], b"B61,0              ".to_vec());
    assert_eq!(frames[2], b"T                  ".to_vec());
    let double = Double::new(true, both());
    let writes = double.writes.clone();
    let client = GrainfatherClient::try_from(double).unwrap();
    client.send_recipe(&recipe).unwrap();
    let sent: Vec<Vec<u8>> = writes.borrow().iter().map(|w| w.1.clone()).collect();
    assert_eq!(sent, frames);

    let mut failing = Double::new(true, both());
    failing.fail_write_after = 1;
    let writes = failing.writes.clone();
    let client = GrainfatherClient::try_from(failing).unwrap();
    assert_eq!(client.send_recipe(&recipe), Err("write".to_string()));
    assert_eq!(writes.borrow().len(), 1);
}

#[test]
fn recognises_appliance_advertisement() {
    let report = vec![EirEntry::Other, EirEntry::ServiceIds(vec![5, SERVICE_ID])];
    assert!(Grainfather::try_from(&report).is_ok());
    let report = vec![EirEntry::ServiceIds(vec![5]), EirEntry::Other];
    assert_eq!(Grainfather::try_from(&report).unwrap_err(), GrainfatherConvertError::ServiceIdNotFound);
    assert!(Grainfather::try_from(&Vec::new()).is_err());
}

#[test]
fn session_keeps_its_transport() {
    let double = Double::new(true, both());
    let log = double.log.clone();
    let client = GrainfatherClient::try_from(double).unwrap();
    assert!(Rc::ptr_eq(&client.transport_ref().log, &log));
    assert_eq!(client.transport_ref().characteristics, both());
}
