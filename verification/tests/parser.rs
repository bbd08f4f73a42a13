use pciid_parser::{Event, Parser, Section};

const PCI_IDS: &str = "#\n\
#\tList of PCI ID's\n\
#\n\
\n\
0001  SafeNet (wrong ID)\n\
0010  Allied Telesis, Inc (Wrong ID)\n\
# This is a relabelled RTL-8139\n\
\t8139  AT-2500TX V3 Ethernet\n\
0014  Loongson Technology LLC\n\
\t7a00  Hyper Transport Bridge Controller\n";

#[test]
fn first_events() {
    let mut parser = Parser::new(PCI_IDS.as_bytes());

    assert_eq!(
        Event::Vendor {
            id: 0x0001,
            name: "SafeNet (wrong ID)"
        },
        parser.next_event().unwrap().unwrap()
    );
    assert_eq!(
        Event::Vendor {
            id: 0x0010,
            name: "Allied Telesis, Inc (Wrong ID)"
        },
        parser.next_event().unwrap().unwrap()
    );
    assert_eq!(
        Event::Device {
            id: 0x8139,
            name: "AT-2500TX V3 Ethernet"
        },
        parser.next_event().unwrap().unwrap()
    );
}

#[test]
fn parse_class_line() {
    let mut parser = Parser::new("C 00  Unclassified device\n".as_bytes());
    assert_eq!(
        Event::Class {
            id: 0x00,
            name: "Unclassified device"
        },
        parser.next_event().unwrap().unwrap()
    );
}

#[test]
fn parse_subclass_line() {
    let buf = "	01  IDE interface\n";
    let mut parser = Parser::new(buf.as_bytes());
    parser.section = Section::Classes;
    assert_eq!(
        Event::SubClass {
            id: 0x01,
            name: "IDE interface"
        },
        parser.next_event().unwrap().unwrap()
    );
}

#[test]
fn parse_subclass_line2() {
    let buf = "\t00  Non-VGA unclassified device\n";
    let mut parser = Parser::new(buf.as_bytes());
    parser.section = Section::Classes;
    assert_eq!(
        Event::SubClass {
            id: 0x00,
            name: "Non-VGA unclassified device"
        },
        parser.next_event().unwrap().unwrap()
    );
}

#[test]
fn parse_prog_if_line() {
    let buf = "		00  ISA Compatibility mode-only controller\n";
    let mut parser = Parser::new(buf.as_bytes());
    parser.section = Section::Classes;
    assert_eq!(
        Event::ProgIf {
            id: 0x00,
            name: "ISA Compatibility mode-only controller"
        },
        parser.next_event().unwrap().unwrap()
    );
}
