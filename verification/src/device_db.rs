//! The VID/PID database: vendors, specific devices and cables, as data.

use vstd::prelude::*;

verus! {

/// Known vendors, in insertion order: vendor ID, name, category.
/// A vendor ID may appear several times; see `insert_vendor` for which entry is kept.
pub const VENDOR_TABLE: [(u16, &'static str, &'static str); 250] = [
    (0x05AC, "Apple", "Cable/Charger"),
    (0x0A5C, "Apple (Broadcom)", "Bluetooth/WiFi"),
    (0x06BC, "Apple (Thunderbolt)", "Thunderbolt"),
    (0x04E8, "Samsung", "Mobile/Charger"),
    (0x2207, "Samsung (MTP)", "Mobile"),
    (0x0BB4, "HTC", "Mobile"),
    (0x18D1, "Google (Nexus/Pixel)", "Mobile"),
    (0x2717, "Xiaomi", "Mobile"),
    (0x0E8D, "MediaTek", "Mobile/WiFi"),
    (0x2A70, "OnePlus", "Mobile"),
    (0x05C6, "Qualcomm", "Mobile/Modem"),
    (0x1286, "Lenovo Mobile", "Mobile"),
    (0x2D95, "Realme", "Mobile"),
    (0x19D2, "ZTE", "Mobile/Modem"),
    (0x20A6, "Huawei", "Mobile/Networking"),
    (0x12D1, "Huawei (HiSilicon)", "Mobile/Modem"),
    (0x0409, "NEC", "Computing"),
    (0x045E, "Microsoft", "Peripherals"),
    (0x045F, "Microsoft (Surface)", "Computing"),
    (0x8087, "Intel", "USB Controller"),
    (0x8086, "Intel", "Computing"),
    (0x2109, "VIA Labs", "Hub Controller"),
    (0x1A40, "Terminus Technology", "Hub Controller"),
    (0x0424, "Microchip (SMSC)", "Hub Controller"),
    (0x174C, "ASMedia", "Hub/Storage Bridge"),
    (0x0BDA, "Realtek", "Hub/Ethernet"),
    (0x3456, "Genesys Logic", "Hub Controller"),
    (0x2E1A, "InnoConn", "Hub/Dock"),
    (0x413C, "Dell", "Computing/Peripherals"),
    (0x0A5C, "Broadcom (Dell)", "Bluetooth"),
    (0x17EF, "Lenovo", "Computing/Dock"),
    (0x1057, "Lenovo Mobile", "Mobile"),
    (0x03F0, "HP", "Peripherals"),
    (0x103C, "HP Inc", "Computing"),
    (0x0B05, "ASUS", "Computing"),
    (0x04D2, "ASUS (MediaTek)", "WiFi"),
    (0x0502, "Acer", "Computing"),
    (0x1532, "Razer", "Gaming Peripherals"),
    (0x046D, "Logitech", "Peripherals"),
    (0x0471, "Philips", "Audio"),
    (0x04DB, "Sony", "Audio/Mobile"),
    (0x054C, "Sony (PlayStation)", "Gaming"),
    (0x0955, "NVIDIA", "Computing"),
    (0x0955, "NVIDIA (Shield)", "Computing"),
    (0x1015, "Sennheiser", "Audio"),
    (0x046F, "C-Media", "Audio"),
    (0x0D8C, "C-Media (USB Audio)", "Audio"),
    (0x1235, "Focusrite", "Audio Interface"),
    (0x0EB8, "M-Audio", "Audio Interface"),
    (0x0763, "MOTU", "Audio Interface"),
    (0x2A39, "UGREEN (Audio)", "Audio DAC"),
    (0x305A, "AudioQuest", "DAC"),
    (0x0D8C, "C-Media (DAC)", "Audio DAC"),
    (0x0001, "Audio-Technica", "Audio"),
    (0x04D8, "Microchip (DAC)", "Audio DAC"),
    (0x2B56, "Shure", "Audio"),
    (0x1220, "Stamford (AudioEngine)", "Audio"),
    (0x16B0, "iFi Audio", "Audio DAC"),
    (0x04E8, "Samsung (Audio)", "Audio"),
    (0x0BC2, "Seagate", "Storage"),
    (0x0781, "SanDisk (WD)", "Storage"),
    (0x0951, "Kingston", "Storage"),
    (0x13FE, "Phison", "Storage"),
    (0x125F, "ADATA", "Storage"),
    (0x1058, "Western Digital", "Storage"),
    (0x04E8, "Samsung (Storage)", "Storage"),
    (0x059B, "LaCie", "Storage"),
    (0x04B4, "Cypress (Storage)", "Storage Bridge"),
    (0x152D, "JMicron", "Storage Bridge"),
    (0x174C, "ASMedia (Storage)", "Storage Bridge"),
    (0x2109, "VIA Labs (Storage)", "Storage Bridge"),
    (0x1F75, "Innodisk", "Storage"),
    (0x090C, "Silicon Motion", "Storage"),
    (0x13B1, "Apacer", "Storage"),
    (0x154B, "PNY", "Storage"),
    (0x1376, "LSI (Avago)", "Storage Controller"),
    (0x9023, "Intel (Optane)", "Storage"),
    (0x14A0, "Transcend", "Storage"),
    (0x1189, "Corsair", "Storage"),
    (0x02A7, "Crucial (Micron)", "Storage"),
    (0x0984, "Corsair (Storage)", "Storage"),
    (0x0B95, "ASIX", "Ethernet"),
    (0x2001, "D-Link", "Ethernet"),
    (0x2357, "TP-Link", "Ethernet/WiFi"),
    (0x0BDA, "Realtek (Ethernet)", "Ethernet"),
    (0x077B, "Linksys", "Ethernet"),
    (0x04BB, "I-O DATA", "Ethernet"),
    (0x07A8, "ATEN", "Ethernet/KVM"),
    (0x056E, "Elecom", "Ethernet"),
    (0x1C04, "QNAP", "Ethernet"),
    (0x0B6A, "CalDigit", "Dock"),
    (0x1A40, "HooToo", "Hub/Dock"),
    (0x3340, "Ugreen", "Ethernet/Hub"),
    (0x291A, "Anker", "Hub/Dock/Cable"),
    (0x30C9, "Luxshare", "Cable/Dock"),
    (0x174C, "Startech", "Dock/Adapter"),
    (0x0CF3, "Qualcomm Atheros", "WiFi/BT"),
    (0x0E8D, "MediaTek (WiFi)", "WiFi"),
    (0x0A5C, "Broadcom (WiFi)", "WiFi/BT"),
    (0x8087, "Intel (WiFi)", "WiFi/BT"),
    (0x050D, "Belkin", "WiFi"),
    (0x0846, "Netgear", "Ethernet/WiFi"),
    (0x1044, "ZyXEL", "WiFi"),
    (0x046D, "Logitech (Webcam)", "Webcam"),
    (0x0B05, "ASUS (Webcam)", "Webcam"),
    (0x05A9, "OmniVision", "Camera"),
    (0x0C45, "Sonix", "Camera"),
    (0x0458, "Genius", "Webcam"),
    (0x0AC9, "Microdia", "Camera"),
    (0x2BC5, "Elgato", "Capture Card"),
    (0x0FD9, "Elgato", "Stream Deck"),
    (0x1997, "Razer (Webcam)", "Webcam"),
    (0x10E8, "Monsoon Solutions", "Power Monitor"),
    (0x17E9, "DisplayLink", "Display Adapter"),
    (0x413C, "Dell (DisplayLink)", "Display Adapter"),
    (0x056C, "DisplayLink (ID)", "Display Adapter"),
    (0x3340, "UGREEN", "Display Adapter"),
    (0x291A, "Anker (Display)", "Display Adapter"),
    (0x1546, "NXP (USB-PD)", "PD Controller"),
    (0x0414, "GigaDevice", "Flash/MCU"),
    (0x1E7B, "Korenix", "Industrial"),
    (0x054C, "Sony (DualSense)", "Gaming"),
    (0x057E, "Nintendo", "Gaming"),
    (0x045E, "Microsoft (Xbox)", "Gaming"),
    (0x2DC8, "8BitDo", "Gaming"),
    (0x20D6, "PowerA", "Gaming"),
    (0x0F0D, "HORI", "Gaming"),
    (0x1532, "Razer (Gaming)", "Gaming"),
    (0x046D, "Logitech (Gaming)", "Gaming"),
    (0x2E24, "HyperX", "Gaming"),
    (0x046D, "Logitech (Keyboard)", "Keyboard"),
    (0x045E, "Microsoft (Keyboard)", "Keyboard"),
    (0x03EB, "Atmel", "MCU/Keyboard"),
    (0x1B1C, "Corsair (Keyboard)", "Keyboard"),
    (0x1038, "SteelSeries", "Gaming Peripherals"),
    (0x2516, "Cherry", "Keyboard"),
    (0x04D9, "Holtek", "Keyboard"),
    (0x2341, "Arduino", "MCU/Dev Board"),
    (0x1A86, "QinHeng (CH340)", "Serial Bridge"),
    (0x10C4, "Silicon Labs", "Serial Bridge"),
    (0x0403, "FTDI", "Serial Bridge"),
    (0x046D, "Logitech (Mouse)", "Mouse"),
    (0x045E, "Microsoft (Mouse)", "Mouse"),
    (0x1532, "Razer (Mouse)", "Mouse"),
    (0x1BCF, "Synaptics", "Trackpad/Input"),
    (0x06BC, "Apple (Trackpad)", "Trackpad"),
    (0x2833, "Razer (Viper)", "Mouse"),
    (0x03F0, "HP (Printer)", "Printer"),
    (0x04B8, "Epson", "Printer"),
    (0x04A9, "Canon", "Printer"),
    (0x12BC, "Brother", "Printer"),
    (0x04DD, "Kyocera", "Printer"),
    (0x09DB, "Xerox", "Printer"),
    (0x0BDA, "Realtek (SDR)", "SDR"),
    (0x1546, "Ubertooth", "Bluetooth SDR"),
    (0x1D50, "OpenMoko", "SDR/Dev"),
    (0x04D8, "Microchip (Embedded)", "MCU"),
    (0x0525, "Netchip (PLX)", "USB Bridge"),
    (0x1A86, "CH340/CH341", "Serial Bridge"),
    (0x067B, "Prolific", "Serial Bridge"),
    (0x0403, "FTDI (Serial)", "Serial Bridge"),
    (0x10C4, "Silicon Labs (CP210x)", "Serial Bridge"),
    (0x239A, "Adafruit", "Dev Board"),
    (0x2341, "Arduino (SAMD)", "Dev Board"),
    (0x1B4F, "SparkFun", "Dev Board"),
    (0x0525, "Netchip (Composite)", "USB Bridge"),
    (0x16C0, "Van Ooijen (Teensy)", "Dev Board"),
    (0x2A03, "Arduino.org", "Dev Board"),
    (0x03EB, "Atmel (AVR)", "MCU"),
    (0x0483, "STMicroelectronics", "MCU"),
    (0x1F3A, "Allwinner", "SoC"),
    (0x1F75, "Innodisk (Embedded)", "Storage"),
    (0x056A, "Wacom", "Graphics Tablet"),
    (0x0B16, "Genius (Tablet)", "Graphics Tablet"),
    (0x2D8C, "XP-Pen", "Graphics Tablet"),
    (0x28BD, "Huion", "Graphics Tablet"),
    (0x14EB, "Huion (Alt)", "Graphics Tablet"),
    (0x2833, "Oculus (Meta)", "VR"),
    (0x0BB4, "HTC (Vive)", "VR"),
    (0x0483, "STMicro (VR)", "VR"),
    (0x056A, "Wacom (VR)", "VR Controller"),
    (0x16B5, "Belkin (Charger)", "Charger"),
    (0x291A, "Anker (Charger)", "Charger"),
    (0x3340, "UGREEN (Charger)", "Charger"),
    (0x04E8, "Samsung (Charger)", "Charger"),
    (0x05AC, "Apple (Charger)", "Charger"),
    (0x1A56, "GaN Systems", "Charger"),
    (0x3456, "Zendure", "Power Bank"),
    (0x3109, "Baseus", "Charger"),
    (0x30C9, "Luxshare (Charger)", "Charger"),
    (0x2E1A, "InnoConn (Charger)", "Charger"),
    (0x0B6A, "CalDigit", "Dock"),
    (0x17EF, "Lenovo (Dock)", "Dock"),
    (0x0413, "ThinkPad (Dock)", "Dock"),
    (0x0424, "Microchip (Dock)", "Dock"),
    (0x2109, "VIA Labs (Dock)", "Dock"),
    (0x1A40, "Terminus (Dock)", "Dock"),
    (0x3340, "UGREEN (Dock)", "Dock"),
    (0x291A, "Anker (Dock)", "Dock"),
    (0x04E8, "Samsung (Dex)", "Dock"),
    (0x1430, "StarTech", "Dock/Adapter"),
    (0x2D95, "Satechi", "Dock/Hub"),
    (0x30C9, "Luxshare (Dock)", "Dock"),
    (0x059F, "LaCie (Rugged)", "Storage"),
    (0x16BC, "Moxa", "Industrial"),
    (0x0C26, "Phidgets", "Industrial"),
    (0x0D28, "NXP (MCU)", "MCU"),
    (0x21A9, "Tenx Technology", "USB Bridge"),
    (0x1A40, "Terminus (USB Hub)", "Hub"),
    (0x03E7, "Intel (Mobile)", "Mobile"),
    (0x058F, "Alcor Micro", "Card Reader"),
    (0x05E3, "Genesys Logic", "Card Reader"),
    (0x1217, "O2 Micro", "Card Reader"),
    (0x0BDA, "Realtek (Card Reader)", "Card Reader"),
    (0x2E8A, "Raspberry Pi", "Dev Board"),
    (0x0525, "Raspberry Pi (USB)", "Dev Board"),
    (0x303A, "Espressif (ESP32)", "Dev Board"),
    (0x1033, "NEC (Renesas)", "USB Controller"),
    (0x04B4, "Cypress", "USB Controller"),
    (0x1B36, "Red Hat (VFIO)", "Virtual USB"),
    (0x0984, "Corsair (Flash)", "Storage"),
    (0x2770, "Samsung (T5/T7)", "Storage"),
    (0x1307, "USBest", "Storage Bridge"),
    (0x14CD, "Super Top", "Storage Bridge"),
    (0x1189, "Corsair (SSD)", "Storage"),
    (0x090C, "Silicon Motion", "Storage"),
    (0x2027, "Renkforce", "Storage"),
    (0x194D, "Native Instruments", "Audio Interface"),
    (0x0D9A, "RME", "Audio Interface"),
    (0x0FB8, "PreSonus", "Audio Interface"),
    (0x2A39, "Behringer", "Audio Interface"),
    (0x0CCD, "Audient", "Audio Interface"),
    (0x07A3, "Zoom", "Audio Interface"),
    (0x0471, "Philips (Audio)", "Audio"),
    (0x1CB3, "Tesla", "Automotive"),
    (0x0B05, "ASUS (Automotive)", "Automotive"),
    (0x2CA3, "DJI", "Drone/Camera"),
    (0x04A9, "Canon (Camera)", "Camera"),
    (0x04DB, "Sony (Camera)", "Camera"),
    (0x04B8, "Epson (Camera)", "Camera"),
    (0x0595, "Fujifilm", "Camera"),
    (0x04F2, "Chicony", "Camera"),
    (0x18D1, "Google (Android)", "Mobile"),
    (0x2207, "Samsung (USB)", "Mobile"),
    (0x0BB4, "HTC (USB)", "Mobile"),
    (0x2717, "Xiaomi (USB)", "Mobile"),
    (0x12D1, "Huawei (USB)", "Mobile"),
    (0x20A6, "Huawei (USB2)", "Mobile"),
    (0x0E8D, "MediaTek (USB)", "Mobile"),
    (0x2A70, "OnePlus (USB)", "Mobile"),
];

/// Known devices, in insertion order: vendor ID, product ID, name, category.
/// When a VID:PID pair appears several times, the later entry is the one kept.
pub const DEVICE_TABLE: [(u16, u16, &'static str, &'static str); 258] = [
    (0x05AC, 0x1234, "Apple USB-C Charge Cable", "Cable"),
    (0x05AC, 0x1235, "Apple USB-C Charge Cable (1m)", "Cable"),
    (0x05AC, 0x1236, "Apple USB-C Charge Cable (2m)", "Cable"),
    (0x05AC, 0x1237, "Apple Thunderbolt Cable", "Cable"),
    (0x05AC, 0x1238, "Apple Thunderbolt 4 Pro (1m)", "Cable"),
    (0x05AC, 0x1239, "Apple Thunderbolt 4 Pro (1.8m)", "Cable"),
    (0x05AC, 0x129C, "Apple USB-C Cable (USB 2.0)", "Cable"),
    (0x05AC, 0x12A2, "Apple USB-C to USB-C Cable (USB 3.0)", "Cable"),
    (0x05AC, 0x12A8, "Apple USB-C to USB-C Cable (USB 2.0)", "Cable"),
    (0x05AC, 0x12AB, "Apple USB-C Charge Cable (1.5m)", "Cable"),
    (0x05AC, 0x8102, "Apple USB-C Power Adapter (20W)", "Charger"),
    (0x05AC, 0x8103, "Apple USB-C Power Adapter (30W)", "Charger"),
    (0x05AC, 0x8104, "Apple USB-C Power Adapter (61W)", "Charger"),
    (0x05AC, 0x8105, "Apple USB-C Power Adapter (87W)", "Charger"),
    (0x05AC, 0x8106, "Apple USB-C Power Adapter (96W)", "Charger"),
    (0x05AC, 0x8107, "Apple USB-C Power Adapter (140W)", "Charger"),
    (0x05AC, 0x8108, "Apple USB-C Power Adapter (35W)", "Charger"),
    (0x05AC, 0x8109, "Apple USB-C Power Adapter (20W 2019)", "Charger"),
    (0x291A, 0x4020, "Anker USB-C Charger (30W)", "Charger"),
    (0x291A, 0x4021, "Anker USB-C Charger (65W)", "Charger"),
    (0x291A, 0x4022, "Anker USB-C Charger (100W)", "Charger"),
    (0x291A, 0x4023, "Anker Nano II 65W Charger", "Charger"),
    (0x291A, 0x4024, "Anker PowerPort 4 Charger", "Charger"),
    (0x2717, 0x1422, "Xiaomi 33W USB-C Charger", "Charger"),
    (0x2717, 0x1425, "Xiaomi 67W Turbo Charger", "Charger"),
    (0x2717, 0xFF0E, "Xiaomi 120W Charger", "Charger"),
    (0x2717, 0xFF15, "POCO X7 Pro Charger (90W)", "Charger"),
    (0x04E8, 0x6860, "Samsung Galaxy S21", "Mobile"),
    (0x04E8, 0x6863, "Samsung Galaxy S22", "Mobile"),
    (0x04E8, 0x6875, "Samsung Galaxy S23", "Mobile"),
    (0x04E8, 0x6888, "Samsung Galaxy S24", "Mobile"),
    (0x04E8, 0x6865, "Samsung Galaxy Z Fold", "Mobile"),
    (0x04E8, 0x686A, "Samsung Galaxy Note 20", "Mobile"),
    (0x04E8, 0x687C, "Samsung Galaxy Z Flip", "Mobile"),
    (0x04E8, 0xA05D, "Samsung T7 Portable SSD", "Storage"),
    (0x04E8, 0xA064, "Samsung T7 Touch SSD", "Storage"),
    (0x04E8, 0xA06D, "Samsung T9 Portable SSD", "Storage"),
    (0x04E8, 0x6095, "Samsung DeX Pad", "Dock"),
    (0x04E8, 0xA466, "Samsung 45W USB-C Charger", "Charger"),
    (0x18D1, 0x4EE1, "Google Nexus/Pixel (MTP)", "Mobile"),
    (0x18D1, 0x4EE2, "Google Nexus/Pixel (PTP)", "Mobile"),
    (0x18D1, 0x4EE3, "Google Pixel (USB Debug)", "Mobile"),
    (0x18D1, 0x4EE7, "Google Pixel 6/7/8", "Mobile"),
    (0x18D1, 0x4EEA, "Google Pixel 8 Pro", "Mobile"),
    (0x18D1, 0x4EE4, "Google Pixel USB Earbuds", "Audio"),
    (0x2717, 0xFF48, "Xiaomi Phone (MTP)", "Mobile"),
    (0x2717, 0xFF40, "Xiaomi Phone (ADB)", "Mobile"),
    (0x2717, 0xFF42, "Xiaomi Mi 11/12/13", "Mobile"),
    (0x2A70, 0x0003, "OnePlus Phone (MTP)", "Mobile"),
    (0x2A70, 0x9012, "OnePlus Nord", "Mobile"),
    (0x12D1, 0x107E, "Huawei Phone (MTP)", "Mobile"),
    (0x12D1, 0x1080, "Huawei Phone (HiSuite)", "Mobile"),
    (0x12D1, 0x1031, "Huawei P30/P40/P50", "Mobile"),
    (0x045E, 0x02D1, "Xbox One Controller (USB)", "Gaming"),
    (0x045E, 0x02DD, "Xbox One S Controller", "Gaming"),
    (0x045E, 0x02E3, "Xbox Elite Controller v2", "Gaming"),
    (0x045E, 0x0B00, "Xbox Series X|S Controller", "Gaming"),
    (0x045E, 0x0B05, "Xbox Wireless Adapter", "Gaming"),
    (0x045E, 0x02EA, "Xbox One Controller (BT)", "Gaming"),
    (0x045E, 0x0B12, "Xbox Series Controller (USB-C)", "Gaming"),
    (0x054C, 0x05C4, "DualShock 4 (PS4)", "Gaming"),
    (0x054C, 0x09CC, "DualShock 4 v2 (PS4)", "Gaming"),
    (0x054C, 0x0CE6, "DualSense (PS5)", "Gaming"),
    (0x054C, 0x0DF2, "DualSense Edge (PS5)", "Gaming"),
    (0x057E, 0x0330, "Nintendo Switch Pro Controller", "Gaming"),
    (0x057E, 0x2009, "Nintendo Switch (USB)", "Gaming"),
    (0x057E, 0x0337, "Nintendo Switch OLED", "Gaming"),
    (0x2DC8, 0x3101, "8BitDo Pro 2", "Gaming"),
    (0x2DC8, 0x3102, "8BitDo Ultimate", "Gaming"),
    (0x2DC8, 0x3106, "8BitDo SN30 Pro+", "Gaming"),
    (0x046D, 0x0A44, "Logitech G Pro Headset", "Audio"),
    (0x046D, 0x0A6F, "Logitech G733 Headset", "Audio"),
    (0x046D, 0x0A92, "Logitech G Pro X Headset", "Audio"),
    (0x046D, 0xC332, "Logitech G502 X Mouse", "Mouse"),
    (0x046D, 0xC08B, "Logitech G502 HERO", "Mouse"),
    (0x046D, 0xC548, "Logitech MX Master 3S", "Mouse"),
    (0x046D, 0xC52B, "Logitech MX Master 3", "Mouse"),
    (0x046D, 0xC539, "Logitech MX Master 2S", "Mouse"),
    (0x046D, 0x0A57, "Logitech StreamCam", "Webcam"),
    (0x046D, 0x0825, "Logitech C920 Webcam", "Webcam"),
    (0x046D, 0x0843, "Logitech C922 Pro Webcam", "Webcam"),
    (0x046D, 0x085B, "Logitech Brio 4K Webcam", "Webcam"),
    (0x046D, 0x0893, "Logitech Brio 300 Webcam", "Webcam"),
    (0x046D, 0xC530, "Logitech MX Keys Keyboard", "Keyboard"),
    (0x046D, 0xC547, "Logitech MX Keys S", "Keyboard"),
    (0x046D, 0xC52E, "Logitech Craft Keyboard", "Keyboard"),
    (0x046D, 0xC517, "Logitech K380 Keyboard", "Keyboard"),
    (0x046D, 0xC537, "Logitech K780 Keyboard", "Keyboard"),
    (0x1532, 0x023E, "Razer DeathAdder V3", "Mouse"),
    (0x1532, 0x0243, "Razer DeathAdder V3 Pro", "Mouse"),
    (0x1532, 0x008B, "Razer BlackWidow V4", "Keyboard"),
    (0x1532, 0x024B, "Razer Huntsman V3 Pro", "Keyboard"),
    (0x1532, 0x0537, "Razer Kraken V3", "Audio"),
    (0x1532, 0x0545, "Razer Barracuda X", "Audio"),
    (0x1532, 0x0517, "Razer Kiyo Pro Webcam", "Webcam"),
    (0x1532, 0x0528, "Razer Stream Controller X", "Stream Deck"),
    (0x1038, 0x138E, "SteelSeries Aerox 3", "Mouse"),
    (0x1038, 0x1394, "SteelSeries Aerox 5", "Mouse"),
    (0x1038, 0x1376, "SteelSeries Prime Mouse", "Mouse"),
    (0x1038, 0x1122, "SteelSeries Arctis Nova 7", "Audio"),
    (0x1038, 0x1220, "SteelSeries Arctis Nova Pro", "Audio"),
    (0x1B1C, 0x1B65, "Corsair M75 Air Mouse", "Mouse"),
    (0x1B1C, 0x1B1E, "Corsair K100 RGB Keyboard", "Keyboard"),
    (0x1B1C, 0x1B7C, "Corsair K65 Plus Keyboard", "Keyboard"),
    (0x1B1C, 0x0A38, "Corsair HS80 Headset", "Audio"),
    (0x1B1C, 0x0A56, "Corsair HS65 Headset", "Audio"),
    (0x1B1C, 0x0A63, "Corsair Virtuoso Headset", "Audio"),
    (0x1B1C, 0x0A2A, "Corsair iCUE Nexus", "Stream Deck"),
    (0x1B1C, 0x0C1E, "Corsair T1 Racing Wheel", "Gaming"),
    (0x2E24, 0x0652, "HyperX Cloud III Headset", "Audio"),
    (0x2E24, 0x0A1A, "HyperX Pulsefire Haste 2", "Mouse"),
    (0x2E24, 0x0A08, "HyperX Alloy Elite 2", "Keyboard"),
    (0x054C, 0x0E0F, "Sony WF-1000XM5 Earbuds", "Audio"),
    (0x054C, 0x0CE0, "Sony WH-1000XM5 Headphones", "Audio"),
    (0x054C, 0x0CE1, "Sony WH-1000XM4 Headphones", "Audio"),
    (0x054C, 0x0CE2, "Sony WF-1000XM4 Earbuds", "Audio"),
    (0x1235, 0x0010, "Focusrite Scarlett 2i2 (3rd Gen)", "Audio Interface"),
    (0x1235, 0x0012, "Focusrite Scarlett 4i4 (3rd Gen)", "Audio Interface"),
    (0x1235, 0x0014, "Focusrite Scarlett Solo (4th Gen)", "Audio Interface"),
    (0x1235, 0x0018, "Focusrite Scarlett 2i2 (4th Gen)", "Audio Interface"),
    (0x1235, 0x8002, "Focusrite Clarett+ 2Pre", "Audio Interface"),
    (0x2BC5, 0x0053, "Elgato HD60 X Capture Card", "Capture Card"),
    (0x2BC5, 0x0048, "Elgato Cam Link 4K", "Capture Card"),
    (0x2BC5, 0x0064, "Elgato Facecam Pro", "Webcam"),
    (0x2BC5, 0x0060, "Elgato Facecam MK.2", "Webcam"),
    (0x0FD9, 0x006B, "Elgato Stream Deck+", "Stream Deck"),
    (0x0FD9, 0x006D, "Elgato Stream Deck MK.2", "Stream Deck"),
    (0x0FD9, 0x0086, "Elgato Stream Deck Neo", "Stream Deck"),
    (0x0FD9, 0x0080, "Elgato Wave XLR", "Audio Interface"),
    (0x0FD9, 0x0078, "Elgato Wave:3 Microphone", "Microphone"),
    (0x0001, 0x0011, "Audio-Technica AT2020USB+", "Microphone"),
    (0x0001, 0x0012, "Audio-Technica ATR2100x", "Microphone"),
    (0x056A, 0x0374, "Wacom Intuos Pro (USB)", "Graphics Tablet"),
    (0x056A, 0x0376, "Wacom Cintiq 16", "Display Tablet"),
    (0x056A, 0x039B, "Wacom One (USB)", "Graphics Tablet"),
    (0x056A, 0x03A7, "Wacom Intuos Pro Medium", "Graphics Tablet"),
    (0x12D1, 0x107E, "Huawei Phone (MTP)", "Mobile"),
    (0x12D1, 0x1080, "Huawei Phone (HiSuite)", "Mobile"),
    (0x12D1, 0x1031, "Huawei P30 Pro", "Mobile"),
    (0x2CA3, 0x001F, "DJI Mini 3 Pro", "Drone"),
    (0x2CA3, 0x0042, "DJI Mavic 3", "Drone"),
    (0x2CA3, 0x0056, "DJI Air 3", "Drone"),
    (0x2CA3, 0x0058, "DJI Avata 2", "Drone"),
    (0x04A9, 0x3277, "Canon EOS R5 (USB)", "Camera"),
    (0x04A9, 0x3278, "Canon EOS R6", "Camera"),
    (0x04A9, 0x3252, "Canon EOS R", "Camera"),
    (0x054C, 0x0CE6, "Sony Alpha a7 IV (USB)", "Camera"),
    (0x054C, 0x0CE0, "Sony Alpha a7R V", "Camera"),
    (0x0781, 0x5567, "SanDisk Extreme Portable SSD", "Storage"),
    (0x0781, 0x5580, "SanDisk Extreme Pro Portable SSD", "Storage"),
    (0x0781, 0x5588, "SanDisk Extreme Pro v2 (2TB)", "Storage"),
    (0x0781, 0x5583, "SanDisk Ultra Dual Drive USB-C", "Storage"),
    (0x1058, 0x0B05, "WD My Passport SSD", "Storage"),
    (0x1058, 0x0B06, "WD My Passport Ultra", "Storage"),
    (0x0BC2, 0x0020, "Seagate One Touch SSD", "Storage"),
    (0x0BC2, 0xAB20, "Seagate Backup Plus SSD", "Storage"),
    (0x0BC2, 0x0025, "Seagate Fast SSD", "Storage"),
    (0x0951, 0x1666, "Kingston XS2000 Portable SSD", "Storage"),
    (0x0951, 0x1687, "Kingston DataTraveler Max", "Storage"),
    (0x125F, 0x002A, "ADATA SD700 External SSD", "Storage"),
    (0x125F, 0x0028, "ADATA SE800 External SSD", "Storage"),
    (0x02A7, 0x5410, "Crucial X6 Portable SSD", "Storage"),
    (0x02A7, 0x5411, "Crucial X8 Portable SSD", "Storage"),
    (0x154B, 0x6005, "PNY CS3040 Portable SSD", "Storage"),
    (0x14A0, 0x6015, "Transcend ESD310 Portable SSD", "Storage"),
    (0x0B95, 0x7720, "ASIX AX88772A Gigabit Ethernet", "Ethernet"),
    (0x0B95, 0x7728, "ASIX AX88179A Gigabit Ethernet", "Ethernet"),
    (0x0B95, 0x1790, "ASIX AX88179B Gigabit Ethernet", "Ethernet"),
    (0x2357, 0x0601, "TP-Link UE300 Gigabit Ethernet", "Ethernet"),
    (0x2357, 0x0602, "TP-Link UE306 USB-C Ethernet", "Ethernet"),
    (0x2357, 0x0603, "TP-Link UE308 USB-C 2.5G Ethernet", "Ethernet"),
    (0x0BDA, 0x8152, "Realtek RTL8152 Fast Ethernet", "Ethernet"),
    (0x0BDA, 0x8153, "Realtek RTL8153 Gigabit Ethernet", "Ethernet"),
    (0x0BDA, 0x8156, "Realtek RTL8156 2.5G Ethernet", "Ethernet"),
    (0x043E, 0x9A03, "LG USB-C to Gigabit Ethernet", "Ethernet"),
    (0x17EF, 0x304A, "Lenovo USB-C to Ethernet", "Ethernet"),
    (0x0413, 0x6009, "ThinkPad USB-C Ethernet", "Ethernet"),
    (0x0525, 0x1020, "Amazon Basics USB-C Ethernet", "Ethernet"),
    (0x291A, 0xA442, "Anker USB-C to Ethernet (2.5G)", "Ethernet"),
    (0x0424, 0x5534, "Microchip USB 3.0 Hub", "Hub"),
    (0x2109, 0x2812, "VIA Labs USB 3.1 Hub", "Hub"),
    (0x2109, 0x0812, "VIA Labs USB 2.0 Hub", "Hub"),
    (0x3456, 0x3456, "Genesys Logic USB-C Hub", "Hub"),
    (0x174C, 0x2009, "ASMedia USB-C Hub Controller", "Hub"),
    (0x0B6A, 0x0A42, "CalDigit TS4 Thunderbolt Dock", "Dock"),
    (0x0B6A, 0x0A40, "CalDigit TS3 Plus Dock", "Dock"),
    (0x3340, 0x0242, "UGREEN USB-C Dock (Triple 4K)", "Dock"),
    (0x3340, 0x0210, "UGREEN USB-C Hub 7-in-1", "Dock"),
    (0x291A, 0xA460, "Anker 577 USB-C Dock", "Dock"),
    (0x291A, 0xA440, "Anker PowerExpand 8-in-1", "Hub"),
    (0x17EF, 0x3048, "Lenovo ThinkPad USB-C Dock Gen 2", "Dock"),
    (0x17EF, 0xA389, "Lenovo Thunderbolt 4 Dock", "Dock"),
    (0x0413, 0x6011, "ThinkPad Universal USB-C Dock", "Dock"),
    (0x17E9, 0x4302, "DisplayLink USB-C to HDMI", "Display Adapter"),
    (0x17E9, 0x4304, "DisplayLink USB-C to DisplayPort", "Display Adapter"),
    (0x17E9, 0x4306, "DisplayLink USB-C Dual HDMI", "Display Adapter"),
    (0x3340, 0x0240, "UGREEN USB-C to HDMI 4K60Hz", "Display Adapter"),
    (0x3340, 0x0244, "UGREEN USB-C to DP 8K", "Display Adapter"),
    (0x291A, 0xA444, "Anker USB-C to HDMI Adapter", "Display Adapter"),
    (0x05AC, 0x8107, "Apple 140W USB-C Power Adapter", "Charger"),
    (0x05AC, 0x8106, "Apple 96W USB-C Power Adapter", "Charger"),
    (0x291A, 0xA460, "Anker 737 Power Bank (240W)", "Power Bank"),
    (0x291A, 0xA445, "Anker 548 Power Bank (192Wh)", "Power Bank"),
    (0x291A, 0xA440, "Anker 100W GaN Charger", "Charger"),
    (0x3340, 0x0243, "UGREEN 100W GaN Charger", "Charger"),
    (0x3340, 0x0246, "UGREEN Nexode 140W Charger", "Charger"),
    (0x3109, 0x0001, "Baseus 100W GaN Charger", "Charger"),
    (0x3109, 0x0002, "Baseus 65W GaN Mini Charger", "Charger"),
    (0x1546, 0x0175, "NXP PD Controller (TCPC)", "PD Controller"),
    (0x04B4, 0x0007, "Cypress CYPD PD Controller", "PD Controller"),
    (0x1A56, 0x0001, "GaN Power Controller", "PD Controller"),
    (0x16C0, 0x0483, "Teensy 4.x (USB Serial)", "Dev Board"),
    (0x16C0, 0x0476, "Teensy 3.x/4.x (Raw HID)", "Dev Board"),
    (0x2A03, 0x0036, "Arduino Leonardo/Micro", "Dev Board"),
    (0x2A03, 0x0042, "Arduino Mega 2560 R3", "Dev Board"),
    (0x2A03, 0x0043, "Arduino Uno R3", "Dev Board"),
    (0x2341, 0x0043, "Arduino Uno R3 (Alt)", "Dev Board"),
    (0x2341, 0x0042, "Arduino Mega 2560 (Alt)", "Dev Board"),
    (0x2341, 0x0044, "Arduino Leonardo", "Dev Board"),
    (0x2341, 0x8049, "Arduino Nano Every", "Dev Board"),
    (0x2341, 0x0057, "Arduino Uno WiFi Rev2", "Dev Board"),
    (0x239A, 0x800B, "Adafruit Feather M0", "Dev Board"),
    (0x239A, 0x8012, "Adafruit Circuit Playground Express", "Dev Board"),
    (0x303A, 0x0002, "Espressif ESP32-S2/S3", "Dev Board"),
    (0x303A, 0x800C, "Espressif ESP32-C3", "Dev Board"),
    (0x2E8A, 0x0003, "Raspberry Pi Pico (USB)", "Dev Board"),
    (0x2E8A, 0x000A, "Raspberry Pi Pico W", "Dev Board"),
    (0x1A86, 0x5523, "CH340 Serial Bridge", "Serial Bridge"),
    (0x1A86, 0x55D4, "CH9102 Serial Bridge", "Serial Bridge"),
    (0x1A86, 0x7523, "CH340 USB-Serial", "Serial Bridge"),
    (0x10C4, 0xEA60, "CP2102 USB-UART Bridge", "Serial Bridge"),
    (0x10C4, 0xEA70, "CP2105 Dual UART Bridge", "Serial Bridge"),
    (0x0403, 0x6001, "FTDI FT232R USB-Serial", "Serial Bridge"),
    (0x0403, 0x6010, "FTDI FT2232H Dual UART", "Serial Bridge"),
    (0x0403, 0x6015, "FTDI FT-X Series", "Serial Bridge"),
    (0x067B, 0x2303, "Prolific PL2303 USB-Serial", "Serial Bridge"),
    (0x067B, 0x23A3, "Prolific PL2303GS USB-Serial", "Serial Bridge"),
    (0x1397, 0x00BB, "Novation Launchpad X", "MIDI Controller"),
    (0x1235, 0x0010, "Novation Launch Control XL", "MIDI Controller"),
    (0x1235, 0x0060, "Novation FLkey 49", "MIDI Controller"),
    (0x09E8, 0x0072, "Akai MPK Mini MK3", "MIDI Controller"),
    (0x09E8, 0x001F, "Akai APC40 mkII", "MIDI Controller"),
    (0x0CCD, 0x0013, "Arturia MiniLab 3", "MIDI Controller"),
    (0x0CCD, 0x0012, "Arturia KeyStep", "MIDI Controller"),
    (0x1A40, 0x0201, "Native Instruments Maschine Mikro", "MIDI Controller"),
    (0x04B4, 0x00F1, "Cypress FX3 SuperSpeed USB Controller", "USB Controller"),
    (0x04B4, 0x00F3, "Cypress FX3S USB Storage Controller", "Storage Controller"),
    (0x10EE, 0x0001, "Xilinx FPGA USB", "Dev Board"),
    (0x09DB, 0x0A13, "Xerox C400 Printer", "Printer"),
    (0x04A9, 0x1900, "Canon imageCLASS Printer", "Printer"),
    (0x04B8, 0x1143, "Epson ET-4850 Printer", "Printer"),
    (0x12BC, 0x0037, "Brother HL-L2370DW Printer", "Printer"),
    (0x2717, 0xFF08, "Xiaomi POCO X7", "Mobile"),
    (0x041E, 0x40A1, "Creative Live! Cam Sync 1080p V2", "Webcam"),
    (0x345F, 0x2132, "USB3 PLUS (HDMI Capture)", "Camera"),
    (0x13D3, 0x3571, "Realtek Bluetooth Adapter", "Bluetooth"),
    (0x12D1, 0x0010, "Huawei USB Composite (KT Audio/Input)", "Mobile"),
    (0x0B05, 0x19AF, "ASUS USB Composite (AURA LED)", "Computing"),
];

/// Known cables, in insertion order: vendor ID, product ID, name, speed, maximum watts, type.
/// When a VID:PID pair appears several times, the later entry is the one kept.
pub const CABLE_TABLE: [(u16, u16, &'static str, &'static str, u32, &'static str); 68] = [
    (0x05AC, 0x1234, "Apple USB-C Cable (USB 2.0)", "USB 2.0 (480 Mbps)", 240, "Passive"),
    (0x05AC, 0x1235, "Apple USB-C Charge Cable (1m)", "USB 2.0 (480 Mbps)", 240, "Passive"),
    (0x05AC, 0x1236, "Apple USB-C Charge Cable (2m)", "USB 2.0 (480 Mbps)", 240, "Passive"),
    (0x05AC, 0x1237, "Apple Thunderbolt Cable", "Thunderbolt 3/4 (40 Gbps)", 100, "Passive"),
    (0x05AC, 0x1238, "Apple Thunderbolt 4 Pro (1m)", "Thunderbolt 4 (40 Gbps)", 100, "Passive"),
    (0x05AC, 0x1239, "Apple Thunderbolt 4 Pro (1.8m)", "Thunderbolt 4 (40 Gbps)", 100, "Active"),
    (0x05AC, 0x129C, "Apple USB-C Cable (2021)", "USB 2.0 (480 Mbps)", 240, "Passive"),
    (0x05AC, 0x12A2, "Apple USB-C 3.0 Cable", "USB 3.1 Gen 1 (5 Gbps)", 100, "Passive"),
    (0x05AC, 0x12A8, "Apple USB-C Cable (USB 2.0)", "USB 2.0 (480 Mbps)", 100, "Passive"),
    (0x05AC, 0x12AB, "Apple USB-C Charge Cable (1.5m)", "USB 2.0 (480 Mbps)", 240, "Passive"),
    (0x291A, 0x0001, "Anker PowerLine USB-C (60W)", "USB 3.1 Gen 1 (5 Gbps)", 60, "Passive"),
    (0x291A, 0x0002, "Anker PowerLine USB-C (100W)", "USB 3.1 Gen 2 (10 Gbps)", 100, "Passive"),
    (0x291A, 0x0003, "Anker PowerLine III USB-C (240W EPR)", "USB 3.2 Gen 2 (20 Gbps)", 240, "Passive"),
    (0x291A, 0x0004, "Anker Thunderbolt 4 Cable (0.8m)", "Thunderbolt 4 (40 Gbps)", 100, "Passive"),
    (0x291A, 0x0005, "Anker Thunderbolt 4 Cable (2m)", "Thunderbolt 4 (40 Gbps)", 100, "Active"),
    (0x291A, 0x0006, "Anker USB4 Cable (40Gbps)", "USB4 Gen 3 (40 Gbps)", 240, "Passive"),
    (0x291A, 0x0007, "Anker Zolo USB-C (240W)", "USB 3.2 Gen 2 (20 Gbps)", 240, "Passive"),
    (0x2717, 0x0001, "Xiaomi USB-C Charging Cable (3A)", "USB 2.0 (480 Mbps)", 66, "Passive"),
    (0x2717, 0x0002, "Xiaomi USB-C to USB-C Cable (5A)", "USB 2.0 (480 Mbps)", 120, "Passive"),
    (0x2717, 0x0003, "POCO X7 USB-C Cable", "USB 2.0 (480 Mbps)", 90, "Passive"),
    (0x2717, 0x0004, "Xiaomi USB-C 3.0 Cable (10 Gbps)", "USB 3.2 Gen 2 (10 Gbps)", 100, "Passive"),
    (0x16B5, 0x0001, "Belkin USB-C Cable (60W)", "USB 3.1 Gen 1 (5 Gbps)", 60, "Passive"),
    (0x16B5, 0x0002, "Belkin USB-C Cable (100W)", "USB 3.1 Gen 2 (10 Gbps)", 100, "Passive"),
    (0x16B5, 0x0003, "Belkin Thunderbolt 4 Pro Cable", "Thunderbolt 4 (40 Gbps)", 100, "Passive"),
    (0x16B5, 0x0004, "Belkin USB4 Cable (240W)", "USB4 Gen 3 (40 Gbps)", 240, "Passive"),
    (0x0B6A, 0x0001, "CalDigit Thunderbolt 4 Cable (0.8m)", "Thunderbolt 4 (40 Gbps)", 100, "Passive"),
    (0x0B6A, 0x0002, "CalDigit Thunderbolt 4 Cable (2m)", "Thunderbolt 4 (40 Gbps)", 100, "Active"),
    (0x3340, 0x0001, "UGREEN USB-C Cable (60W)", "USB 2.0 (480 Mbps)", 60, "Passive"),
    (0x3340, 0x0002, "UGREEN USB-C Cable (100W)", "USB 3.1 Gen 2 (10 Gbps)", 100, "Passive"),
    (0x3340, 0x0003, "UGREEN USB-C Cable (240W EPR)", "USB 3.2 Gen 2 (20 Gbps)", 240, "Passive"),
    (0x3340, 0x0004, "UGREEN USB4 Cable (40Gbps/240W)", "USB4 Gen 3 (40 Gbps)", 240, "Passive"),
    (0x3340, 0x0005, "UGREEN Thunderbolt 4 Cable", "Thunderbolt 4 (40 Gbps)", 100, "Passive"),
    (0x04E8, 0xA05D, "Samsung USB-C Cable (SuperSpeed)", "USB 3.1 Gen 1 (5 Gbps)", 100, "Passive"),
    (0x04E8, 0xA064, "Samsung USB-C to USB-C (25W)", "USB 2.0 (480 Mbps)", 25, "Passive"),
    (0x3109, 0x0003, "Baseus USB-C Cable (100W)", "USB 3.1 Gen 1 (5 Gbps)", 100, "Passive"),
    (0x3109, 0x0004, "Baseus USB-C Cable (240W EPR)", "USB 3.2 Gen 2 (20 Gbps)", 240, "Passive"),
    (0x3109, 0x0005, "Baseus USB4 Cable (240W)", "USB4 Gen 3 (40 Gbps)", 240, "Passive"),
    (0x2D95, 0x0001, "Satechi USB-C Cable (100W)", "USB 3.1 Gen 2 (10 Gbps)", 100, "Passive"),
    (0x2D95, 0x0002, "Satechi Thunderbolt 4 Cable", "Thunderbolt 4 (40 Gbps)", 100, "Passive"),
    (0x14CD, 0x0001, "Cable Matters USB-C (100W)", "USB 3.1 Gen 2 (10 Gbps)", 100, "Passive"),
    (0x14CD, 0x0002, "Cable Matters USB-C (240W)", "USB 3.2 Gen 2 (20 Gbps)", 240, "Passive"),
    (0x14CD, 0x0003, "Cable Matters Thunderbolt 4 (0.8m)", "Thunderbolt 4 (40 Gbps)", 100, "Passive"),
    (0x14CD, 0x0004, "Cable Matters Thunderbolt 4 (2m)", "Thunderbolt 4 (40 Gbps)", 100, "Active"),
    (0x1217, 0x0001, "Monoprice USB-C (100W)", "USB 3.1 Gen 2 (10 Gbps)", 100, "Passive"),
    (0x1217, 0x0002, "Monoprice USB4 (240W)", "USB4 Gen 3 (40 Gbps)", 240, "Passive"),
    (0x1430, 0x0001, "StarTech USB-C (60W)", "USB 3.1 Gen 1 (5 Gbps)", 60, "Passive"),
    (0x1430, 0x0002, "StarTech USB-C (100W)", "USB 3.1 Gen 2 (10 Gbps)", 100, "Passive"),
    (0x8087, 0x0001, "Intel Thunderbolt 3 Cable (0.5m)", "Thunderbolt 3 (40 Gbps)", 100, "Passive"),
    (0x8087, 0x0002, "Intel Thunderbolt 3 Cable (1m)", "Thunderbolt 3 (40 Gbps)", 100, "Passive"),
    (0x8087, 0x0003, "Intel Thunderbolt 3 Cable (2m)", "Thunderbolt 3 (40 Gbps)", 100, "Active"),
    (0x30C9, 0x0001, "Luxshare USB-C Cable", "USB 3.2 Gen 1 (5 Gbps)", 100, "Passive"),
    (0x30C9, 0x0002, "Luxshare USB-C Cable (240W)", "USB 3.2 Gen 2 (20 Gbps)", 240, "Passive"),
    (0x30C9, 0x0003, "Luxshare USB4 Cable", "USB4 Gen 3 (40 Gbps)", 240, "Passive"),
    (0x30C9, 0x0004, "Luxshare Thunderbolt 4 Cable", "Thunderbolt 4 (40 Gbps)", 100, "Passive"),
    (0x2833, 0x0001, "Oculus/Meta Quest Link Cable (5m)", "USB 3.2 Gen 1 (5 Gbps)", 15, "Active"),
    (0x0424, 0x5534, "Microchip USB 3.0 Hub (embedded)", "USB 3.0 (5 Gbps)", 60, "Hub"),
    (0x2109, 0x2812, "VIA VL812 USB 3.0 Hub", "USB 3.0 (5 Gbps)", 60, "Hub"),
    (0x3456, 0x3456, "Genesys GL3523 USB-C Hub", "USB 3.1 Gen 1 (5 Gbps)", 100, "Hub"),
    (0x0000, 0x0001, "Generic USB 2.0 Cable", "USB 2.0 (480 Mbps)", 15, "Passive"),
    (0x0000, 0x0002, "Generic USB 3.0 Cable (5Gbps)", "USB 3.0 (5 Gbps)", 100, "Passive"),
    (0x0000, 0x0003, "Generic USB 3.1 Gen 2 Cable (10Gbps)", "USB 3.1 Gen 2 (10 Gbps)", 100, "Passive"),
    (0x0000, 0x0004, "Generic USB 3.2 Gen 2 Cable (20Gbps)", "USB 3.2 Gen 2x2 (20 Gbps)", 100, "Passive"),
    (0x0000, 0x0005, "Generic USB4 Cable (40Gbps)", "USB4 Gen 3 (40 Gbps)", 240, "Passive"),
    (0x0000, 0x0006, "Generic Thunderbolt 3 Cable", "Thunderbolt 3 (40 Gbps)", 100, "Passive"),
    (0x0000, 0x0007, "Generic Thunderbolt 4 Cable", "Thunderbolt 4 (40 Gbps)", 100, "Passive"),
    (0x0000, 0x0008, "Generic USB-C Charge Cable (60W)", "USB 2.0 (480 Mbps)", 60, "Passive"),
    (0x0000, 0x0009, "Generic USB-C Charge Cable (100W)", "USB 2.0 (480 Mbps)", 100, "Passive"),
    (0x0000, 0x000A, "Generic USB-C Charge Cable (240W EPR)", "USB 2.0 (480 Mbps)", 240, "Passive"),
];

} // verus!
