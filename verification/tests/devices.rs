use pciid_parser::{find_device_name, find_subdevice_name, find_vendor_name, Database, Parser};

const PCI_IDS: &str = "#\n\
#\tList of PCI ID's\n\
#\n\
# Vendors, devices and subsystems. Please keep sorted.\n\
\n\
# Syntax:\n\
# vendor  vendor_name\n\
#\tdevice  device_name\t\t\t\t<-- single tab\n\
#\t\tsubvendor subdevice  subsystem_name\t<-- two tabs\n\
\n\
0001  SafeNet (wrong ID)\n\
0010  Allied Telesis, Inc (Wrong ID)\n\
# This is a relabelled RTL-8139\n\
\t8139  AT-2500TX V3 Ethernet\n\
0014  Loongson Technology LLC\n\
\t7a00  Hyper Transport Bridge Controller\n\
\t7a02  APB (Advanced Peripheral Bus) Controller\n\
1001  Kolter Electronic\n\
\t0010  PCI 1616 Measurement card with 32 digital I/O lines\n\
\t0011  OPTO-PCI Opto-Isolated digital I/O board\n\
\t0012  PCI-AD/DA Analogue I/O board\n\
1002  Advanced Micro Devices, Inc. [AMD/ATI]\n\
\t1304  Kaveri\n\
\t1305  Kaveri\n\
\t1306  Kaveri\n\
\t67df  Ellesmere [Radeon RX 470/480/570/570X/580/580X/590]\n\
\t\t1002 0b37  Radeon RX 480\n\
\t\t1028 1722  Radeon RX 570X\n\
\t\t1043 04a8  Radeon RX 480\n\
\t\t1da2 e353  Radeon RX 570 Pulse 4GB\n\
\t\t1da2 e366  Nitro+ Radeon RX 570/580/590\n\
\t\t1da2 e387  Radeon RX 580 Pulse 4GB\n\
\t687f  Vega 10 XL/XT [Radeon RX Vega 56/64]\n\
\t\t1002 0b36  RX Vega64\n\
\t\t1002 6b76  RX Vega64\n\
\t\t1043 04c4  Radeon RX Vega 64\n\
\t\t1458 230c  Radeon RX VEGA 56 GAMING OC 8G\n\
\t\t1da2 e376  Radeon RX VEGA 56 Pulse 8GB OC HBM2\n\
1043  ASUSTeK Computer Inc.\n\
\t0464  Radeon R9 270x GPU\n\
1da2  Sapphire Technology Limited\n\
1fc9  Tehuti Networks Ltd.\n\
\t3010  10-Giga TOE SmartNIC\n\
\n\
# List of known device classes, subclasses and programming interfaces\n\
\n\
# Syntax:\n\
# C class\tclass_name\n\
#\tsubclass\tsubclass_name  \t\t<-- single tab\n\
#\t\tprog-if  prog-if_name  \t<-- two tabs\n\
\n\
C 00  Unclassified device\n\
\t00  Non-VGA unclassified device\n\
\t01  VGA compatible unclassified device\n\
\t05  Image coprocessor\n\
C 01  Mass storage controller\n\
\t00  SCSI storage controller\n\
\t01  IDE interface\n\
\t\t00  ISA Compatibility mode-only controller\n\
\t\t05  PCI native mode-only controller\n\
C 02  Network controller\n\
\t00  Ethernet controller\n\
\t07  Infiniband controller\n\
\t08  Fabric controller\n\
\t80  Network controller\n\
C 03  Display controller\n\
\t00  VGA compatible controller\n\
\t\t00  VGA controller\n\
\t\t01  8514 controller\n\
\t01  XGA compatible controller\n\
C 09  Input device controller\n\
\t00  Keyboard controller\n\
C 0c  Serial bus controller\n\
\t03  USB controller\n\
\t\t00  UHCI\n\
\t\t10  OHCI\n\
\t\t20  EHCI\n\
\t\t30  XHCI\n\
\t\t40  USB4 Host Interface\n\
\t\t80  Unspecified\n\
\t\tfe  USB Device\n\
C ff  Unassigned class\n";

fn parse_polaris(db: Database) {
    let data = db.get_device_info(0x1002, 0x67DF, 0x1DA2, 0xE387);

    assert_eq!(
        data.vendor_name,
        Some("Advanced Micro Devices, Inc. [AMD/ATI]"),
    );
    assert_eq!(
        data.device_name,
        Some("Ellesmere [Radeon RX 470/480/570/570X/580/580X/590]"),
    );
    assert_eq!(data.subvendor_name, Some("Sapphire Technology Limited"));
    let card_model = data.subdevice_name.unwrap();
    assert!(card_model == "Radeon RX 570 Pulse 4GB" || card_model == "Radeon RX 580 Pulse 4GB");
}

#[test]
fn parse_polaris_local() {
    let db = Database::parse_db(PCI_IDS.as_bytes()).unwrap();
    parse_polaris(db);
}

#[test]
fn parse_polaris_online() {
    let mut parser = Parser::new(PCI_IDS.as_bytes());
    let db = Database::read(&mut parser).unwrap();
    parse_polaris(db);
}

#[test]
fn parse_vega() {
    let db = Database::parse_db(PCI_IDS.as_bytes()).unwrap();
    let data = db.get_device_info(0x1002, 0x687F, 0x1043, 0x0555);

    assert_eq!(
        data.vendor_name,
        Some("Advanced Micro Devices, Inc. [AMD/ATI]")
    );
    assert_eq!(
        data.device_name,
        Some("Vega 10 XL/XT [Radeon RX Vega 56/64]")
    );
    assert_eq!(data.subvendor_name, Some("ASUSTeK Computer Inc."));
    assert_eq!(data.subdevice_name, None);
}

#[test]
fn class_not_in_vendors() {
    let db = Database::parse_db(PCI_IDS.as_bytes()).unwrap();

    assert_eq!(db.vendors.get(&0x000c), None);
    assert_eq!(db.vendors.get(&0x0c09), None);
    assert_eq!(db.vendors.get(&0x0009), None);
    assert_eq!(db.vendors.len(), 8);

    let db = Database::parse_db("c 09  Input device controller\n".as_bytes()).unwrap();
    assert!(db.vendors.is_empty());
    assert_eq!(db.classes[&0x09].name, "Input device controller");
}

#[test]
fn find_amd() {
    let mut parser = Parser::new(PCI_IDS.as_bytes());
    let name = find_vendor_name(&mut parser, 0x1002).unwrap().unwrap();
    assert_eq!("Advanced Micro Devices, Inc. [AMD/ATI]", name);
}

#[test]
fn find_polaris() {
    let mut parser = Parser::new(PCI_IDS.as_bytes());
    let name = find_device_name(&mut parser, 0x1002, 0x67df)
        .unwrap()
        .unwrap();
    assert_eq!("Ellesmere [Radeon RX 470/480/570/570X/580/580X/590]", name);
}

#[test]
fn find_following_device() {
    let mut parser = Parser::new(PCI_IDS.as_bytes());
    let name = find_device_name(&mut parser, 0x1002, 0x1304)
        .unwrap()
        .unwrap();
    assert_eq!("Kaveri", name);
}

#[test]
fn find_between_vendors() {
    let mut parser = Parser::new(PCI_IDS.as_bytes());
    let name = find_device_name(&mut parser, 0x1001, 0x1306).unwrap();
    assert_eq!(None, name);
}

#[test]
fn find_between_vendors_2() {
    let mut parser = Parser::new(PCI_IDS.as_bytes());
    let name = find_device_name(&mut parser, 0x0001, 0x8139).unwrap();
    assert_eq!(None, name);
}

#[test]
fn find_subdevice() {
    let mut parser = Parser::new(PCI_IDS.as_bytes());
    let name = find_subdevice_name(&mut parser, 0x1002, 0x67df, 0x1da2, 0xe387)
        .unwrap()
        .unwrap();
    assert_eq!("Radeon RX 580 Pulse 4GB", name);
}
