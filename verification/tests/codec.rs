use rust_av::codec::common::CodecList;
use rust_av::codec::decoder;
use rust_av::codec::encoder;
use rust_av::codec::error::{Error, Result};
use rust_av::data::frame::ArcFrame;
use rust_av::data::packet::Packet;
use rust_av::data::params::CodecParams;
use rust_av::data::value::Value;

struct Dec {
    state: usize,
}

impl decoder::Decoder for Dec {
    fn configure(&mut self) -> Result<()> {
        Ok(())
    }
    fn set_extradata(&mut self, extra: &[u8]) {
        if extra.len() > 4 {
            self.state = 42;
        } else {
            self.state = 12;
        }
    }
    fn send_packet(&mut self, _packet: &Packet) -> Result<()> {
        self.state += 1;
        Ok(())
    }
    fn receive_frame(&mut self) -> Result<ArcFrame> {
        Err(Error::MoreDataNeeded)
    }
    fn flush(&mut self) -> Result<()> {
        Ok(())
    }
}

struct DecDes {
    descr: decoder::Descr,
}

impl decoder::Descriptor for DecDes {
    type OutputDecoder = Dec;

    fn create(&self) -> Self::OutputDecoder {
        Dec { state: 0 }
    }

    fn describe(&self) -> &decoder::Descr {
        &self.descr
    }
}

const DUMMY_DECODER: &DecDes = &DecDes {
    descr: decoder::Descr {
        codec: "dummy",
        name: "dummy",
        desc: "Dummy decoder",
        mime: "x-application/dummy",
    },
};

const OTHER_DECODER: &DecDes = &DecDes {
    descr: decoder::Descr {
        codec: "other",
        name: "other",
        desc: "Other decoder",
        mime: "x-application/other",
    },
};

const SECOND_DUMMY_DECODER: &DecDes = &DecDes {
    descr: decoder::Descr {
        codec: "dummy",
        name: "dummy2",
        desc: "Second dummy decoder",
        mime: "x-application/dummy",
    },
};

#[test]
fn decoder_lookup_first_appended_wins() {
    let codecs = decoder::Codecs::from_list(&[OTHER_DECODER, DUMMY_DECODER, SECOND_DUMMY_DECODER]);
    assert_eq!(codecs.by_name("dummy").unwrap().descr.desc, "Dummy decoder");
    let codecs = decoder::Codecs::from_list(&[SECOND_DUMMY_DECODER, DUMMY_DECODER]);
    assert_eq!(codecs.by_name("dummy").unwrap().descr.desc, "Second dummy decoder");
}

#[test]
fn decoder_lookup() {
    let codecs = decoder::Codecs::from_list(&[DUMMY_DECODER]);

    let _dec = codecs.by_name("dummy").unwrap();
}

#[test]
fn decoder_context_by_name() {
    let codecs = decoder::Codecs::from_list(&[OTHER_DECODER, DUMMY_DECODER]);
    let found = codecs.by_name("dummy").unwrap();
    assert_eq!(found.descr.desc, "Dummy decoder");
    assert!(codecs.by_name("missing").is_none());

    let mut ctx = decoder::Context::by_name(&codecs, "other").unwrap();
    ctx.set_extradata(&[1, 2, 3, 4, 5]);
    assert!(ctx.send_packet(&Packet::new()).is_ok());
    assert!(ctx.configure().is_ok());
    assert!(ctx.flush().is_ok());
    assert!(matches!(ctx.receive_frame(), Err(Error::MoreDataNeeded)));
    assert!(decoder::Context::by_name(&codecs, "missing").is_none());
}

struct Enc {
    state: usize,
}

impl encoder::Encoder for Enc {
    fn configure(&mut self) -> Result<()> {
        Err(Error::ConfigurationIncomplete)
    }
    fn get_extradata(&self) -> Option<Vec<u8>> {
        Some(vec![self.state as u8; 1])
    }
    fn send_frame(&mut self, _frame: &ArcFrame) -> Result<()> {
        self.state += 1;
        Ok(())
    }
    fn receive_packet(&mut self) -> Result<Packet> {
        let mut p = Packet::with_capacity(1);
        p.data.push(self.state as u8);
        Ok(p)
    }
    fn set_option<'a>(&mut self, key: &str, val: Value<'a>) -> Result<()> {
        match (key, val) {
            ("w", Value::U64(v)) => self.state = v as usize,
            _ => return Err(Error::Unsupported(format!("{} key", key))),
        }
        Ok(())
    }
    fn set_params(&mut self, _params: &CodecParams) -> Result<()> {
        Ok(())
    }
    fn get_params(&self) -> Result<CodecParams> {
        Err(Error::ConfigurationIncomplete)
    }
    fn flush(&mut self) -> Result<()> {
        Ok(())
    }
}

struct EncDes {
    descr: encoder::Descr,
}

impl encoder::Descriptor for EncDes {
    type OutputEncoder = Enc;

    fn create(&self) -> Self::OutputEncoder {
        Enc { state: 0 }
    }

    fn describe(&self) -> &encoder::Descr {
        &self.descr
    }
}

const DUMMY_ENCODER: &EncDes = &EncDes {
    descr: encoder::Descr {
        codec: "dummy",
        name: "dummy",
        desc: "Dummy encoder",
        mime: "x-application/dummy",
    },
};

#[test]
fn encoder_lookup() {
    let codecs = encoder::Codecs::from_list(&[DUMMY_ENCODER]);

    let _enc = codecs.by_name("dummy");
}

#[test]
fn encoder_context_delegates() {
    let codecs = encoder::Codecs::from_list(&[DUMMY_ENCODER]);
    let mut ctx = encoder::Context::by_name(&codecs, "dummy").unwrap();
    assert!(ctx.set_option("w", 7u64).is_ok());
    assert_eq!(ctx.get_extradata(), Some(vec![7]));
    assert_eq!(ctx.receive_packet().unwrap().data, vec![7]);
    match ctx.set_option("h", 1u64) {
        Err(e) => assert_eq!(e.to_string(), "Unsupported feature h key"),
        Ok(_) => panic!(),
    }
    assert!(matches!(ctx.configure(), Err(Error::ConfigurationIncomplete)));
    assert!(ctx.flush().is_ok());
}

#[test]
fn codec_error_text() {
    assert_eq!(Error::InvalidData.to_string(), "Invalid Data");
    assert_eq!(Error::MoreDataNeeded.to_string(), "Additional data needed");
    assert_eq!(Error::ConfigurationIncomplete.to_string(), "Configuration Incomplete");
    assert_eq!(Error::ConfigurationInvalid.to_string(), "Configuration Invalid");
}
