//! Quote parsing and enclave-key address extraction.

use attestation::errors::VerificationError;
use attestation::report::{AttestationVerificationReport, Quote, SgxQuote, SgxReportBody, UnixTime};

fn sample_quote_bytes() -> Vec<u8> {
    let mut b = vec![0u8; 432];
    // version = 2, little endian
    b[0] = 2;
    // sign type = 1 (linkable)
    b[2] = 1;
    // epid group id
    b[4..8].copy_from_slice(&[0xd4, 0x0e, 0x00, 0x00]);
    // qe_svn = 11, pce_svn = 10
    b[8] = 11;
    b[10] = 10;
    // basename: recognizable
    for (k, x) in b[16..48].iter_mut().enumerate() {
        *x = k as u8;
    }
    // attributes flags = 7, xfrm = 3
    b[96] = 7;
    b[104] = 3;
    // mr_enclave, mr_signer
    for x in b[112..144].iter_mut() {
        *x = 0xaa;
    }
    for x in b[176..208].iter_mut() {
        *x = 0xbb;
    }
    // isv_prod_id = 1, isv_svn = 2
    b[304] = 1;
    b[306] = 2;
    // report data: 20-byte address then padding
    for (k, x) in b[368..432].iter_mut().enumerate() {
        *x = 0x40 + k as u8;
    }
    b
}

fn sample_report(version: i64, timestamp: &str, body_b64: String) -> AttestationVerificationReport {
    AttestationVerificationReport {
        version,
        timestamp: timestamp.to_string(),
        isv_enclave_quote_status: "OK".to_string(),
        isv_enclave_quote_body: body_b64,
        ..Default::default()
    }
}

#[test]
fn parse_quote_decodes_layout() {
    let qb = sample_quote_bytes();
    let report = sample_report(4, "2020-10-15T18:01:05.123456", base64::encode(&qb));
    let quote = report.parse_quote().unwrap();
    assert_eq!(quote.raw.version, 2);
    assert_eq!(quote.raw.sign_type, 1);
    assert_eq!(quote.raw.epid_group_id, vec![0xd4, 0x0e, 0x00, 0x00]);
    assert_eq!(quote.raw.qe_svn, 11);
    assert_eq!(quote.raw.pce_svn, 10);
    assert_eq!(quote.raw.report_body.attributes_flags, 7);
    assert_eq!(quote.raw.report_body.attributes_xfrm, 3);
    assert_eq!(quote.raw.report_body.mr_enclave, vec![0xaa; 32]);
    assert_eq!(quote.raw.report_body.mr_signer, vec![0xbb; 32]);
    assert_eq!(quote.raw.report_body.isv_prod_id, 1);
    assert_eq!(quote.raw.report_body.isv_svn, 2);
    assert_eq!(quote.raw.report_body.report_data.len(), 64);
    assert_eq!(quote.raw.report_body.report_data[0], 0x40);
    assert_eq!(quote.status, "OK");
    assert_eq!(
        quote.attestation_time,
        UnixTime { secs: 1602784865, nanos: 123_456_000 }
    );
}

#[test]
fn parse_quote_accepts_whole_second_timestamps() {
    let qb = sample_quote_bytes();
    let report = sample_report(4, "2020-10-15T18:01:05", base64::encode(&qb));
    let quote = report.parse_quote().unwrap();
    assert_eq!(quote.attestation_time, UnixTime { secs: 1602784865, nanos: 0 });
}

#[test]
fn parse_quote_rejects_other_versions() {
    let qb = base64::encode(sample_quote_bytes());
    for version in [0i64, 3, 5, -1, i64::MAX] {
        let report = sample_report(version, "2020-10-15T18:01:05.123456", qb.clone());
        assert_eq!(
            report.parse_quote(),
            Err(VerificationError::UnexpectedVersion { expected: 4, actual: version })
        );
    }
}

#[test]
fn parse_quote_rejects_bad_timestamps() {
    let qb = base64::encode(sample_quote_bytes());
    for ts in ["", "yesterday", "2020-10-15", "2020-13-40T99:99:99"] {
        let report = sample_report(4, ts, qb.clone());
        assert_eq!(report.parse_quote(), Err(VerificationError::InvalidTimestamp));
    }
}

#[test]
fn parse_quote_rejects_bad_bodies() {
    let report = sample_report(4, "2020-10-15T18:01:05", "!!!not-base64!!!".to_string());
    assert_eq!(report.parse_quote(), Err(VerificationError::InvalidQuoteBody));
    let short = base64::encode(vec![0u8; 431]);
    let report = sample_report(4, "2020-10-15T18:01:05", short);
    assert_eq!(report.parse_quote(), Err(VerificationError::InvalidQuoteBody));
}

fn quote_with_report_data(report_data: Vec<u8>) -> Quote {
    Quote {
        raw: SgxQuote {
            version: 2,
            sign_type: 0,
            epid_group_id: vec![0; 4],
            qe_svn: 0,
            pce_svn: 0,
            xeid: 0,
            basename: vec![0; 32],
            report_body: SgxReportBody {
                cpu_svn: vec![0; 16],
                misc_select: 0,
                attributes_flags: 0,
                attributes_xfrm: 0,
                mr_enclave: vec![0; 32],
                mr_signer: vec![0; 32],
                isv_prod_id: 0,
                isv_svn: 0,
                report_data,
            },
        },
        status: "OK".to_string(),
        attestation_time: UnixTime { secs: 0, nanos: 0 },
    }
}

#[test]
fn enclave_key_address_is_first_twenty_bytes() {
    let data: Vec<u8> = (0u8..64).collect();
    let quote = quote_with_report_data(data.clone());
    let address = quote.get_enclave_key_address().unwrap();
    assert_eq!(address.bytes, data[..20].to_vec());
}

#[test]
fn short_report_data_is_rejected_not_truncated() {
    let quote = quote_with_report_data(vec![1u8; 19]);
    assert_eq!(
        quote.get_enclave_key_address(),
        Err(VerificationError::InvalidReportData { length: 19 })
    );
    let quote = quote_with_report_data(Vec::new());
    assert_eq!(
        quote.get_enclave_key_address(),
        Err(VerificationError::InvalidReportData { length: 0 })
    );
    let quote = quote_with_report_data(vec![1u8; 20]);
    assert!(quote.get_enclave_key_address().is_ok());
}
