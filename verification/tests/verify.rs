//! End-to-end verification of endorsed reports against a trust root, using a
//! locally built certificate chain: an RSA root CA, an end-entity signing
//! certificate issued by it, and an RSA PKCS#1 v1.5 SHA-256 body signature.

use attestation::errors::VerificationError;
use attestation::report::{EndorsedAttestationVerificationReport, UnixTime};
use attestation::verification::verify_report;
use rsa::pkcs8::DecodePrivateKey;
use rsa::signature::{SignatureEncoding, Signer};

static KEY_ROOT_HEX: &[&str] = &[
    "308204bf020100300d06092a864886f70d0101010500048204a9308204a50201000282010100b3c27d14c563e3d45109",
    "66bd8b993b8b3aeaf3e506cd33fe21f685fbc4723db0cfaae68a396d21e9cd31f46eb4c6c3c10cc5a2f01869e448a43c",
    "d8b3713451ee3b9117db8949c41890021b670c6030604c3c647b89098f64539e7b0546f0fa581ba4a24d23c9fc72040a",
    "1c1775e3eee7a8abbcde5fcb71d6b7101ebb42fe7e3704db946d7053fb5704371cb26b0a0948a721e9c3c641dc4f9752",
    "2d9bd1f543e23c16b8e7930fe0acf8c8b4144c9d059a07d949515a5c734ee95e407453903a307dc21e7b684c28046d0d",
    "512dfd53d5a5ce706594bc03d1e2a36c41d75840bedc3aeb338c454058e8ac751344323897f415f0c26734afe0155a54",
    "fb0d698d06a3020301000102820100193f86fc04e18bdd856851a2ebd9a0f0645d1dd69c46f4378ca3a89bfd32a29194",
    "09880a0018e0fb8ad3aa666643c8b8f3c74aa478795f1408e576f6753f0906f21ce601f2dd868a80a79b1bb53449772d",
    "1e0a6b038b7135813d3040447f925a0fbfe6fff8b7e51a4a90f4f3229eda2e75957198b651c7f28591e10f2250c67f4d",
    "7e71384ec63d39fd653af3a3f1e01b10351547a52d96996253673c68bc2058611ddb377ea8c3e0daec4ff5bfe9243c1c",
    "d0217b2cef3637545b94b5b4fb6a344ce624ed9896b542385a29679eebaa7a89da253cb3d2486efc3cb63a772ff8a62d",
    "01e96f0b3ed3fa472233502c7689fd25bffe681822d6453c4b31bbeb8f7ba902818100e0d27954cd59a5259c2f6cf365",
    "e4ee63200d122e265de82f2b5d17b580a0f716abe228d39de6eaeacd13d0d49854f7490bc5d3969abdf6402202116fa3",
    "f756a9381f958fe663f6e1f567f69625ef5147087c3828765da723fd970dcc02b9c436c8f4c6649c06f24b2f92e3b84e",
    "cd867001b3d6f860d9a441540a6c951b71eb5f02818100ccb03add0293a8972d5edd3f9ef3fd4eb3369e70c325f48b69",
    "a08d689ce795ac7531be9faef5377563e14e18ccde909a8b19e043ca17d2d6eb1984d5bfe41cbe55b99f6d1eb98065dd",
    "3a910676e16ecf9ef8bc6743b3e6042f331ba62c8caf547f39db10ab977aa9f8cbc1f5f73327e27a0ccd6505dee64078",
    "bfce8b11beaf3d0281810085346f6b0d5865ff08b118ce85bac47bbacbc3cfd02fa797fb0b6736c5059a20b6aa83220e",
    "d678adb1e061c4f494b307769039b36befcd6d6638ef77c420921a2504a1aae708a7886dccb14f791e787babcd5dc0ab",
    "9105accf5da6710fd45d2b5099a6ca899f9c036c268e01efbeda3e96e3a524f8cd3b02f1f6532b6d5d6be50281810099",
    "d85345ce2c01692f36c000938e3b73ad8b7de6af2695f93af8eb90176e90b6c09714f99c5cbec442c0131cdccee3cce4",
    "841c65973df4c0888ff3a15ccb2d3779e33c8a9daf3b6c54ad3257b37e98f5003d600e157adf85819c5e49b5ee3fd1b8",
    "9659aadbedccca782f5da76b974d8111cf1189beb1dc49d4f8055bcd888ed9028181008180d6aeb526c9a185c933ba95",
    "991ed4fbeb7bedb26745e3a9d8669ee0db138882b119856bf7808fb3e2a00e4c4f611774d202cf1f451675b406697dfb",
    "1472773d659c1f60b83fb3fe634595bdc02870c481bd87444a022cd7f867f4d6d29eab73d4f956d0f80d92da8c153fc1",
    "a9e27d1c13886c952c7f9f65557212b87bf9ce",
];

static KEY_ROOT2_HEX: &[&str] = &[
    "308204be020100300d06092a864886f70d0101010500048204a8308204a40201000282010100c874e51097b9881e16b5",
    "63c4a35248878aa5fe9f298fc493918beba3ec89a643acd5b3dabef6132b91677cfbc7757b47c09d7662ec3188c894b2",
    "e8ddbea73886c1073ff42bffcc7143d74106324252f49fb3767a80deb7ea5b814b19758195770766cfdb09abf2f28828",
    "b760e4e7351eb87e4208b60ca1e00a7fba8f269cbda1d559b3fd167af16b1a9c12ef303ff0e017024d74292183ef5880",
    "9f9d99186a8738e7dac068ed845962c8963ab389feca4f8cd1a0bcd59d3fbba6f502a679e05092f4cf9f199e72b77c16",
    "eb32ff8fb5337c456c2e82765f331ceb204d432e4a50e546caaee5a58ea326ef56379ed4c1f0365424c0e7d1c17394d2",
    "fada25ade175020301000102820100456469f38f8273836efb05f9894c2fbd741ab885229f193eb870c676eda84cfd3a",
    "7494195267df050305df374db9f69e45287d560b4bae7d3934a1f6394cabfdc20e9f6e085939cdafdd712e12f1f0c3ac",
    "11351f7d431c49adb99964cbcfbb0d046bebe2787ba4d39e9cf1b6422763b529cad3532eaa3ad352ef1a86f9a7e2e0e9",
    "103c6172eafbeee1dcb5a579578f15020062039ce870cd3e582302e07e541b7f5e108a88d7d4fe91f632cda8a9bf031b",
    "442fba8ccb65675e267edce406c77bda6231534074165bd176668d0e7e0656da9ddab025ea05720d44a7adca686a69a8",
    "9b6a53e496ef3eea77a84c2a74071efe613f8ddf2d5882280674bfe9328f3502818100e970a76b533c53cfbfb33bc347",
    "250a1a4dd3e8605904e1c109f0ff344bf4c794f82bddb2d895e06945bf8afd2120cf4295c432a9f96921c5e00232e683",
    "78aade6e118a312c3fdf3b3af11d41f994b068058be85dd8a9cf6c57035fa56e1b6ed4f93567e9e7e5cfd2068afb6e6a",
    "e87d7f8e1bda2427540553186a19a48139b38302818100dbd439a14375b1cba15f146b4250e3fd8721b05a5c81b804db",
    "ef15cf5354f0d778788e6de13306911a48de6c0e84db91506066eb568b8b807f7d1e0f0f5160348049a1b190e4ad5f36",
    "24afebc0d4d0223cf9fa1809fe437927588c48134a9187264519e1f82d397ca580b9a9ed28a71e4d0518c21dc31fab2b",
    "e9fe65a8096da702818100852bc226a4ee5675becbb5fd39f9f4607b23b77e376a648b666b787b52158b41fdadb0a4d5",
    "8ff2dcbb70810ed4b64de6935fc0f35c98502efd12e40cc2d5b4cc7d883e08bd5096bdc86b42a09f8be673012f06597b",
    "3fac5806efa2c1d2258e3dab097f855dc8a99d0c247f39477de8123b74c2263bd55fd03eae50809b43da9702818029c6",
    "2ca56e92611517376043f9b8317b2e40c2a88947c556770cfa1209fdec3ea61012d0e2a8b5a8c15bf3988931ca1fd52c",
    "5ca28031c872c4c75bfcf4a63c27fdf1001f242fb09a9549677cdf8a117b502718d594a092e5e50a38ae41ac3bf778d8",
    "4cd0da3e8ddc17ff5c48e45e835388c35d2f1644cc31d5088465810739a50281810098ad6d97f104e97954ed3375cc0c",
    "09a673b0f01a4a332091cd30269c1e8824dcaca6f177f90d2dd1455b482e478a3abd577af93fe481901a247fdc7834ab",
    "20b0e6311f11ed14a617daa2aead76d9ee866f69a109c4683eb4685db0a9552abd7065e112cad0656631a2be3f635776",
    "8c3e14d0f45315d2a3388cbce0e46be95fb4",
];

static KEY_EE_HEX: &[&str] = &[
    "308204ba020100300d06092a864886f70d0101010500048204a4308204a00201000282010100b3855325deb7c23dcaa4",
    "8f487ac74ca8346151feafe6882acb4996380ef017f4c653d3b23ebbe69c458351051360a989ddf1ce00f1fa5a79b6e7",
    "705dd0ea0cca33dc6a790eb9fcabcaa98732070d2accfcaaef2c7b0cb950ca1d200db7bf4672ecada28a9b8e7265f60e",
    "050dfbb2d77555aa97feea80f92530e99177374bbb64347f8a70f0a7c0a4af400f327e85c57a048b5e09e0f90a8aa50e",
    "d8e4602965a4d59af63ef49c806dabcee08cbe6aa7fb24e98cc641ebb85d9b6a50c9896152a0e1ef09ce6a9a0f57ed42",
    "b337fccaf963a5bf288afe0bda951642485108888d38d251b844bb6eabc7a895a69637db98efae35057e73846b18eaca",
    "8fa257cdc98d020301000102820100277fbd8e7ecd504dffbd0af0afe113970be560e0e8ab90c8d7af427fe59b82addf",
    "0859332615fa54e67f90ef4cb6ef3eb02890c2c8fb247694dda1ede67664e78597290f27441959e42ebe5a2dce821d15",
    "b7f785823287c0c4a3b966834830f43eeaaa71946df872423c0df5286d0e7698e97ee57e0bf025b47823c34715a0ee7a",
    "212c940a6328b84beb1779c83b1739d8d72b0b248a33b8e8407b838140b8ccb9871538ef255e2368b7befb91a502d959",
    "ab53594b144d4f8996aacfed1b161f0c0ce4dc7edd93988d374edad3c52d0d3dfbc0658d8b545f6dd8ce2b8fbbd42602",
    "3bfc8b166b89ddb7de50c652a68f37f986175a622568348f0191829db6f4c902818100e153db1b58ece3764475d21e01",
    "1e80324cd879307a0702d0780b61e4f96ff0a220327c02aeeb4cdaa0379a819be9bc32e990bb613f24739a365d23659d",
    "6830f6c6fab3c809eeeed606f59603cb4cd78f669c4acf9fd81d76ce9204031a5ef682af74e5d63d07d1a2348894d686",
    "e7023ca2920d8bd94bc43cfb32dd8445edf7d502818100cbf5359192c164129979809818c77b4e1030c48f211218db7c",
    "752852d54d55549dfc62bf524e19e94d888456d0bd1f7dd168bbcba07f87699861c2c65ed4290f938f182006fc597f82",
    "bbce31bc985ed4d18c804c90c0ad01c39ddb30509b6f466de37f2e16e35e9e29e18d9a66c77d0822222a4895115138bc",
    "facef5857cded9027f718acfddf7f166ad31d22d0ef1816d17eba12970440d445dc81ff4346d7cfac4b774b908a11bf0",
    "9e3a1dcabd84d3430264af89bc7714e72bce39209d13b46cf7ed4c674b65b600a3d8dde7ba01b7b6e78bcd35e569a67d",
    "3260e533205d297d0e5d5b8a756a4b865736219cde7d1beb04a2e6f5ec8292ab500f44925b14e1d50281807118032039",
    "742afd7544be5d983fe4cba086aa37836af9859b398ba682c862ec8cbe0a33747c023a2fd7e72a0c8d120d3e35090d1c",
    "6e1ab41edef695f0b74c1d6b0109ab98b40d1c7b6d90245c23515248efd3a4a10f75df688cfba18ad0e59ef40815d984",
    "af8723c4ad614ba07a35867106e8d35e753fc86a61d8a8a3e05de1028180199bc6d6f2f16a3af9efa34bb7c97c31e512",
    "e886fe37f620dd9a48e7dce089c4e776fe0444cffc661523704118aecd84e5c5bb98a2d50d8905f3de511a9aeec7f8ab",
    "1afcbdfe35a8f0fbfcfcd63d2acf14d6f9f7c3b326c045aff24990fa2416417ab4a9d33485080fa1591ba35ba75bb128",
    "342adf59096fcb880fcfc433b163",
];

fn decode_key(parts: &[&str]) -> Vec<u8> {
    let joined: String = parts.concat();
    (0..joined.len())
        .step_by(2)
        .map(|i| u8::from_str_radix(&joined[i..i + 2], 16).unwrap())
        .collect()
}

fn make_cert(key_der: &[u8], ca: bool, from_year: i32, to_year: i32) -> rcgen::Certificate {
    let kp = rcgen::KeyPair::from_der_and_sign_algo(key_der, &rcgen::PKCS_RSA_SHA256).unwrap();
    let mut params = rcgen::CertificateParams::new(vec!["attestation.test".to_string()]);
    params.alg = &rcgen::PKCS_RSA_SHA256;
    params.key_pair = Some(kp);
    params.not_before = rcgen::date_time_ymd(from_year, 1, 1);
    params.not_after = rcgen::date_time_ymd(to_year, 1, 1);
    if ca {
        params.is_ca = rcgen::IsCa::Ca(rcgen::BasicConstraints::Unconstrained);
    }
    rcgen::Certificate::from_params(params).unwrap()
}

fn pem_of(der: &[u8]) -> Vec<u8> {
    pem::encode(&pem::Pem { tag: "CERTIFICATE".to_string(), contents: der.to_vec() }).into_bytes()
}

struct Fixture {
    root_pem: Vec<u8>,
    other_root_pem: Vec<u8>,
    report: EndorsedAttestationVerificationReport,
}

fn fixture() -> Fixture {
    let root_key = decode_key(KEY_ROOT_HEX);
    let other_root_key = decode_key(KEY_ROOT2_HEX);
    let ee_key = decode_key(KEY_EE_HEX);

    let root = make_cert(&root_key, true, 2020, 2030);
    let other_root = make_cert(&other_root_key, true, 2020, 2030);
    let ee = make_cert(&ee_key, false, 2020, 2030);

    let root_der = root.serialize_der().unwrap();
    let other_root_der = other_root.serialize_der().unwrap();
    let ee_der = ee.serialize_der_with_signer(&root).unwrap();

    let avr = "{\"id\":\"1\",\"version\":4}".to_string();
    let signer = rsa::pkcs1v15::SigningKey::<rsa::sha2::Sha256>::new(
        rsa::RsaPrivateKey::from_pkcs8_der(&ee_key).unwrap(),
    );
    let signature = signer.sign(avr.as_bytes()).to_vec();

    Fixture {
        root_pem: pem_of(&root_der),
        other_root_pem: pem_of(&other_root_der),
        report: EndorsedAttestationVerificationReport { avr, signature, signing_cert: ee_der },
    }
}

// Inside the certificates' validity window.
const VALID_TIME: UnixTime = UnixTime { secs: 1735689600, nanos: 1 };

#[test]
fn valid_report_verifies() {
    let f = fixture();
    assert_eq!(verify_report(&f.report, &f.root_pem, VALID_TIME), Ok(()));
}

#[test]
fn wrong_trust_root_is_rejected() {
    // The body signature is valid under the certificate's own key, yet the
    // certificate does not chain to the supplied root.
    let f = fixture();
    assert_eq!(
        verify_report(&f.report, &f.other_root_pem, VALID_TIME),
        Err(VerificationError::InvalidCertificate)
    );
}

#[test]
fn time_outside_validity_is_rejected() {
    let f = fixture();
    // Before the not-before date (2019-01-01).
    let early = UnixTime { secs: 1546300800, nanos: 1 };
    assert_eq!(
        verify_report(&f.report, &f.root_pem, early),
        Err(VerificationError::InvalidCertificate)
    );
    // After the not-after date (2031-01-01).
    let late = UnixTime { secs: 1924992000, nanos: 1 };
    assert_eq!(
        verify_report(&f.report, &f.root_pem, late),
        Err(VerificationError::InvalidCertificate)
    );
    // And inside the window the same report verifies.
    assert_eq!(verify_report(&f.report, &f.root_pem, VALID_TIME), Ok(()));
}

#[test]
fn partial_seconds_round_up() {
    let f = fixture();
    // The certificates expire at 2030-01-01T00:00:00. On the whole second
    // itself the report still verifies.
    let boundary = UnixTime { secs: 1893456000, nanos: 0 };
    assert_eq!(verify_report(&f.report, &f.root_pem, boundary), Ok(()));
    // Any fraction past it rounds up to the next whole second, past expiry.
    let just_past = UnixTime { secs: 1893456000, nanos: 1 };
    assert_eq!(
        verify_report(&f.report, &f.root_pem, just_past),
        Err(VerificationError::InvalidCertificate)
    );
}

#[test]
fn tampered_body_is_rejected() {
    let mut f = fixture();
    f.report.avr.push(' ');
    assert_eq!(
        verify_report(&f.report, &f.root_pem, VALID_TIME),
        Err(VerificationError::InvalidSignature)
    );
}

#[test]
fn tampered_signature_is_rejected() {
    let mut f = fixture();
    f.report.signature[0] ^= 1;
    assert_eq!(
        verify_report(&f.report, &f.root_pem, VALID_TIME),
        Err(VerificationError::InvalidSignature)
    );
}

#[test]
fn unusable_trust_root_is_rejected() {
    let f = fixture();
    assert_eq!(
        verify_report(&f.report, b"not pem at all", VALID_TIME),
        Err(VerificationError::InvalidTrustRoot)
    );
}

#[test]
fn garbage_certificate_is_rejected() {
    let f = fixture();
    let report = EndorsedAttestationVerificationReport {
        signing_cert: vec![0u8; 64],
        ..f.report
    };
    assert_eq!(
        verify_report(&report, &f.root_pem, VALID_TIME),
        Err(VerificationError::InvalidCertificate)
    );
}
