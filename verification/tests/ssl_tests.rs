use epazote::metrics::ServiceMetrics;
use epazote::ssl::{cert_remaining_seconds, check_ssl_certificate, extract_host_port, SslError};

#[test]
fn test_extract_host_port() {
    let url = "https://example.com:443";
    let (host, port) = extract_host_port(url).unwrap();
    assert_eq!(host, "example.com");
    assert_eq!(port, 443);
}

#[test]
fn test_extract_host_port_defaults() {
    let (host, port) = extract_host_port("https://example.com").unwrap();
    assert_eq!(host, "example.com");
    assert_eq!(port, 443);

    let (host, port) = extract_host_port("http://example.com").unwrap();
    assert_eq!(host, "example.com");
    assert_eq!(port, 80);

    let (host, port) = extract_host_port("https://example.com:8443/x?y=1").unwrap();
    assert_eq!(host, "example.com");
    assert_eq!(port, 8443);
}

#[test]
fn test_extract_host_port_invalid() {
    assert_eq!(extract_host_port("not a url").unwrap_err(), SslError::InvalidUrl);
    // A URL without a host.
    assert_eq!(extract_host_port("unix:/run/foo.sock").unwrap_err(), SslError::InvalidUrl);
}

#[test]
fn test_cert_remaining_seconds_floors_at_zero() {
    // One year left reports one year, to the second.
    assert_eq!(cert_remaining_seconds(31_536_000, 0), 31_536_000);
    assert_eq!(cert_remaining_seconds(1_823_073_226, 1_791_537_226), 31_536_000);
    // An expired certificate reports 0, never a negative count.
    assert_eq!(cert_remaining_seconds(100, 200), 0);
    assert_eq!(cert_remaining_seconds(200, 200), 0);
    assert_eq!(cert_remaining_seconds(-5, 0), 0);
    assert_eq!(cert_remaining_seconds(201, 200), 1);
}

/// A self-signed certificate whose `notAfter` instant is 1823073226
/// (2027-10-09T09:13:46Z), DER-encoded.
fn test_certificate_der() -> Vec<u8> {
    let der: Vec<u8> = vec![
        48, 130, 1, 132, 48, 130, 1, 41, 160, 3, 2, 1, 2, 2, 20, 59,
        152, 197, 185, 94, 93, 100, 124, 33, 110, 103, 11, 245, 83, 47, 55, 83,
        250, 121, 125, 48, 10, 6, 8, 42, 134, 72, 206, 61, 4, 3, 2, 48,
        23, 49, 21, 48, 19, 6, 3, 85, 4, 3, 12, 12, 101, 120, 97, 109,
        112, 108, 101, 46, 116, 101, 115, 116, 48, 30, 23, 13, 50, 54, 49, 48,
        48, 57, 48, 57, 49, 51, 52, 54, 90, 23, 13, 50, 55, 49, 48, 48,
        57, 48, 57, 49, 51, 52, 54, 90, 48, 23, 49, 21, 48, 19, 6, 3,
        85, 4, 3, 12, 12, 101, 120, 97, 109, 112, 108, 101, 46, 116, 101, 115,
        116, 48, 89, 48, 19, 6, 7, 42, 134, 72, 206, 61, 2, 1, 6, 8,
        42, 134, 72, 206, 61, 3, 1, 7, 3, 66, 0, 4, 186, 107, 114, 223,
        28, 17, 53, 143, 191, 66, 14, 143, 94, 67, 132, 226, 116, 8, 124, 6,
        57, 9, 168, 130, 175, 28, 72, 71, 16, 196, 162, 152, 156, 249, 232, 231,
        119, 246, 101, 130, 244, 96, 86, 228, 208, 30, 195, 22, 69, 80, 59, 190,
        181, 48, 9, 193, 233, 189, 236, 6, 134, 77, 206, 41, 163, 83, 48, 81,
        48, 29, 6, 3, 85, 29, 14, 4, 22, 4, 20, 83, 154, 17, 186, 203,
        119, 229, 122, 151, 171, 192, 210, 246, 230, 234, 207, 106, 141, 84, 44, 48,
        31, 6, 3, 85, 29, 35, 4, 24, 48, 22, 128, 20, 83, 154, 17, 186,
        203, 119, 229, 122, 151, 171, 192, 210, 246, 230, 234, 207, 106, 141, 84, 44,
        48, 15, 6, 3, 85, 29, 19, 1, 1, 255, 4, 5, 48, 3, 1, 1,
        255, 48, 10, 6, 8, 42, 134, 72, 206, 61, 4, 3, 2, 3, 73, 0,
        48, 70, 2, 33, 0, 248, 85, 183, 224, 106, 35, 114, 86, 40, 16, 132,
        10, 10, 112, 93, 10, 157, 56, 28, 36, 200, 71, 221, 166, 165, 207, 18,
        0, 159, 156, 198, 196, 2, 33, 0, 147, 75, 192, 136, 223, 130, 219, 128,
        104, 233, 179, 255, 171, 212, 88, 26, 180, 221, 34, 56, 23, 96, 80, 217,
        208, 239, 135, 135, 167, 48, 78, 123,
    ];
    der
}

#[test]
fn test_check_ssl_certificate_sets_gauge() {
    let der = test_certificate_der();
    let mut metrics = ServiceMetrics::new();

    // A year before expiry the gauge reads one year, to the second.
    let now = 1_823_073_226 - 31_536_000;
    let remaining = check_ssl_certificate(&mut metrics, "web", &der, now).unwrap();
    assert_eq!(remaining, 31_536_000);
    assert_eq!(metrics.get("web").unwrap().cert_expiry_seconds, Some(31_536_000));

    // Well past expiry the gauge reads 0 rather than failing.
    let remaining = check_ssl_certificate(&mut metrics, "web", &der, 1_823_073_226 + 10).unwrap();
    assert_eq!(remaining, 0);
    assert_eq!(metrics.get("web").unwrap().cert_expiry_seconds, Some(0));
}

#[test]
fn test_check_ssl_certificate_rejects_garbage() {
    // Bytes that are no certificate fail cleanly and leave the gauge unset.
    let mut metrics = ServiceMetrics::new();
    let junk: Vec<u8> = vec![72, 84, 84, 80, 47, 49, 46, 49, 32, 50, 48, 48];
    let r = check_ssl_certificate(&mut metrics, "web", &junk, 0);
    assert_eq!(r.unwrap_err(), SslError::CertificateParse);
    assert!(metrics.get("web").is_none());

    let r = check_ssl_certificate(&mut metrics, "web", &[], 0);
    assert!(r.is_err());
}
