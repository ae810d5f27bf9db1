// Projection round trip through the wcs collaborator: unprojecting the
// pixel a coordinate projects to recovers the coordinate, within
// projection tolerance, for a non-degenerate tangent-plane WCS.  The
// planner itself never sees these floating values; this exercises the
// collaborator the way the extraction driver uses it.

use std::io::Cursor;

use fitsrs::fits::Fits;
use fitsrs::hdu::HDU;
use wcs::{ImgXY, LonLat};

fn card(text: &str) -> Vec<u8> {
    let mut c = text.as_bytes().to_vec();
    assert!(c.len() <= 80);
    c.resize(80, b' ');
    c
}

fn test_header() -> Vec<u8> {
    let mut h = Vec::new();
    h.extend(card("SIMPLE  =                    T"));
    h.extend(card("BITPIX  =                  -64"));
    h.extend(card("NAXIS   =                    2"));
    h.extend(card("NAXIS1  =                 1000"));
    h.extend(card("NAXIS2  =                 1000"));
    h.extend(card("CTYPE1  = 'RA---TAN'"));
    h.extend(card("CTYPE2  = 'DEC--TAN'"));
    h.extend(card("CRVAL1  =                218.0"));
    h.extend(card("CRVAL2  =                 34.5"));
    h.extend(card("CRPIX1  =                500.0"));
    h.extend(card("CRPIX2  =                500.0"));
    h.extend(card("CDELT1  =              -0.0005"));
    h.extend(card("CDELT2  =               0.0005"));
    h.extend(card("END"));
    h.resize(2880, b' ');
    h
}

#[test]
fn unproject_inverts_project() {
    let mut fits = Fits::from_reader(Cursor::new(test_header()));
    let hdu = fits.next().expect("one HDU").expect("parses");
    let wcs = match &hdu {
        HDU::Primary(img) => img.wcs().expect("a WCS"),
        _ => panic!("expected a primary image HDU"),
    };

    let ra: f64 = 218.0321;
    let dec: f64 = 34.4567;
    let coord = LonLat::new(ra.to_radians(), dec.to_radians());
    let pix = wcs.proj_lonlat(&coord).expect("projects");
    let back = wcs
        .unproj_lonlat(&ImgXY::new(pix.x(), pix.y()))
        .expect("unprojects");

    assert!((back.lon().to_degrees() - ra).abs() < 1e-9);
    assert!((back.lat().to_degrees() - dec).abs() < 1e-9);
}

#[test]
fn requested_center_projects_near_reference_pixel() {
    let mut fits = Fits::from_reader(Cursor::new(test_header()));
    let hdu = fits.next().expect("one HDU").expect("parses");
    let wcs = match &hdu {
        HDU::Primary(img) => img.wcs().expect("a WCS"),
        _ => panic!("expected a primary image HDU"),
    };

    // the reference coordinate itself maps to the reference pixel
    let coord = LonLat::new(218.0f64.to_radians(), 34.5f64.to_radians());
    let pix = wcs.proj_lonlat(&coord).expect("projects");
    assert!((pix.x() - 499.0).abs() < 1.5);
    assert!((pix.y() - 499.0).abs() < 1.5);
}
