use ground_motion_lib::vectorized::evaluate_all;

#[derive(Debug, Clone, Copy, PartialEq)]
struct Site {
    lon: f64,
    lat: f64,
    vs30: u64,
}

#[derive(Debug, Clone, Copy, PartialEq)]
struct Out {
    lon: f64,
    lat: f64,
    value: f64,
}

fn grid(n: usize) -> Vec<Site> {
    let mut sites = Vec::new();
    for i in 0..n {
        sites.push(Site {
            lon: 142.0 + (i as f64) * 0.01,
            lat: 50.0 - (i as f64) * 0.02,
            vs30: 200 + (i as u64) * 7,
        });
    }
    sites
}

fn eval(s: &Site) -> Out {
    Out {
        lon: s.lon,
        lat: s.lat,
        value: (s.vs30 as f64).log10() * s.lat.sin(),
    }
}

#[test]
fn output_keeps_site_order() {
    let sites = grid(1000);
    let out = evaluate_all(&sites, &eval);
    assert_eq!(out.len(), sites.len());
    for i in 0..sites.len() {
        assert_eq!(out[i].lon, sites[i].lon);
        assert_eq!(out[i].lat, sites[i].lat);
        assert_eq!(out[i], eval(&sites[i]));
    }
}

#[test]
fn empty_input_gives_empty_output() {
    let sites: Vec<Site> = Vec::new();
    let out = evaluate_all(&sites, &eval);
    assert!(out.is_empty());
}

#[test]
fn output_does_not_depend_on_worker_count() {
    let sites = grid(777);
    let one = rayon::ThreadPoolBuilder::new().num_threads(1).build().unwrap();
    let four = rayon::ThreadPoolBuilder::new().num_threads(4).build().unwrap();
    let a = one.install(|| evaluate_all(&sites, &eval));
    let b = four.install(|| evaluate_all(&sites, &eval));
    let c = evaluate_all(&sites, &eval);
    assert_eq!(a.len(), b.len());
    for i in 0..a.len() {
        assert_eq!(a[i].value.to_bits(), b[i].value.to_bits());
        assert_eq!(a[i].value.to_bits(), c[i].value.to_bits());
    }
}

#[test]
fn closure_capturing_model_state() {
    let scale = 2.0;
    let sites = grid(3);
    let out = evaluate_all(&sites, &|s: &Site| s.vs30 as f64 * scale);
    assert_eq!(out, vec![400.0, 414.0, 428.0]);
}
